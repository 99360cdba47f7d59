use steel::{
    default_authority_address, derive_pda, seeds_with_bump, token_authority_address, Account,
    AccountError, Address, EmptyAccount, Pda, ProgramAccount, Signer, SysvarAccount,
    TokenAccountInfo,
};

fn addr(tag: u8) -> Address {
    let mut bytes = [0u8; 32];
    bytes[0] = tag;
    Address::new(bytes)
}

fn base_account() -> Account {
    Account {
        key: addr(1),
        owner: addr(2),
        lamports: 0,
        signer: false,
        writable: false,
        executable: false,
        data: vec![],
    }
}

#[test]
fn signer_handles() {
    let mut a = base_account();
    assert_eq!(
        Signer::new(&a).unwrap_err(),
        AccountError::MissingRequiredSignature
    );
    a.signer = true;
    assert!(Signer::new(&a).is_ok());
    assert!(Signer::new_with_key(&a, &addr(1)).is_ok());
    assert_eq!(
        Signer::new_with_key(&a, &addr(9)).unwrap_err(),
        AccountError::MissingRequiredSignature
    );
    // A payer must be writable before it must sign.
    assert_eq!(
        Signer::new_payer(&a).unwrap_err(),
        AccountError::InvalidInstructionData
    );
    a.writable = true;
    assert!(Signer::new_payer(&a).is_ok());
    a.signer = false;
    assert_eq!(
        Signer::new_payer(&a).unwrap_err(),
        AccountError::MissingRequiredSignature
    );
}

#[test]
fn pda_handles() {
    let authority = addr(3);
    let seeds = vec![b"counter".to_vec()];
    let (address, bump) = derive_pda(&seeds, &authority).unwrap();
    let mut a = base_account();
    a.key = address;
    assert!(Pda::new_with_seeds(&a, &seeds, bump, &authority).is_ok());
    let wrong_bump = if bump == 0 { 1 } else { bump - 1 };
    assert_eq!(
        Pda::new_with_seeds(&a, &seeds, wrong_bump, &authority).unwrap_err(),
        AccountError::InvalidSeeds
    );
    assert!(Pda::new_with_known_address(&a, &a.key.clone()).is_ok());
    assert_eq!(
        Pda::new_with_known_address(&a, &addr(9)).unwrap_err(),
        AccountError::InvalidInstructionData
    );
}

#[test]
fn seeds_with_bump_appends_one_byte_seed() {
    let seeds = vec![b"counter".to_vec(), vec![7]];
    let combined = seeds_with_bump(&seeds, 254);
    assert_eq!(combined.len(), 3);
    assert_eq!(combined[0], b"counter".to_vec());
    assert_eq!(combined[1], vec![7]);
    assert_eq!(combined[2], vec![254]);
}

#[test]
fn empty_account_handles() {
    let mut a = base_account();
    a.owner = default_authority_address();
    assert!(EmptyAccount::new(&a).is_ok());
    assert!(EmptyAccount::new_with_key(&a, &addr(1), false).is_ok());
    assert_eq!(
        EmptyAccount::new_with_key(&a, &addr(1), true).unwrap_err(),
        AccountError::InvalidAccountData
    );
    assert_eq!(
        EmptyAccount::new_with_key(&a, &addr(9), false).unwrap_err(),
        AccountError::InvalidAccountData
    );
    a.owner = addr(2);
    assert_eq!(
        EmptyAccount::new(&a).unwrap_err(),
        AccountError::IllegalOwner
    );
    a.owner = default_authority_address();
    a.data = vec![0u8];
    assert_eq!(
        EmptyAccount::new(&a).unwrap_err(),
        AccountError::InvalidAccountData
    );
}

#[test]
fn sysvar_and_program_handles() {
    let mut a = base_account();
    assert_eq!(
        SysvarAccount::new(&a).unwrap_err(),
        AccountError::InvalidAccountOwner
    );
    a.owner = steel::sysvar_authority_address();
    assert!(SysvarAccount::new(&a).is_ok());

    let mut p = base_account();
    assert!(ProgramAccount::new(&p, &addr(2)).is_ok());
    assert_eq!(
        ProgramAccount::new(&p, &addr(9)).unwrap_err(),
        AccountError::InvalidAccountOwner
    );
    p.executable = true;
    assert_eq!(
        ProgramAccount::new(&p, &addr(2)).unwrap_err(),
        AccountError::InvalidAccountOwner
    );
}

#[test]
fn token_account_handles() {
    let mint = addr(4);
    let holder = addr(5);
    let mut data = vec![0u8; 165];
    data[..32].copy_from_slice(&mint.bytes);
    data[32..64].copy_from_slice(&holder.bytes);
    let mut a = base_account();
    a.owner = token_authority_address();
    a.data = data;

    let handle = TokenAccountInfo::new(&a, &mint).unwrap();
    assert_eq!(handle.get_owner().unwrap().bytes, holder.bytes);
    assert!(TokenAccountInfo::new_with_owner(&a, &mint, &holder).is_ok());
    assert!(
        TokenAccountInfo::new_with_owner_and_key(&a, &mint, &holder, &addr(1)).is_ok()
    );

    // Wrong program owner.
    let mut foreign = base_account();
    foreign.data = a.data.clone();
    assert_eq!(
        TokenAccountInfo::new(&foreign, &mint).unwrap_err(),
        AccountError::IllegalOwner
    );
    // Wrong mint.
    assert_eq!(
        TokenAccountInfo::new(&a, &addr(9)).unwrap_err(),
        AccountError::InvalidAccountData
    );
    // Wrong recorded holder.
    assert_eq!(
        TokenAccountInfo::new_with_owner(&a, &mint, &addr(9)).unwrap_err(),
        AccountError::IllegalOwner
    );
    // Wrong account address, reported first.
    assert_eq!(
        TokenAccountInfo::new_with_owner_and_key(&a, &mint, &holder, &addr(9)).unwrap_err(),
        AccountError::InvalidInstructionData
    );
    // A buffer too short to hold the holder's address.
    let mut short = base_account();
    short.owner = token_authority_address();
    short.data = mint.bytes.to_vec();
    let handle = TokenAccountInfo::new(&short, &mint).unwrap();
    assert_eq!(
        handle.get_owner().unwrap_err(),
        AccountError::InvalidAccountData
    );
}
