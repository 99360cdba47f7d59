use steel::{derive_pda, Account, AccountError, Address};

fn addr(tag: u8) -> Address {
    let mut bytes = [0u8; 32];
    bytes[0] = tag;
    Address::new(bytes)
}

fn account_with_key(key: Address) -> Account {
    Account {
        key,
        owner: addr(2),
        lamports: 0,
        signer: false,
        writable: false,
        executable: false,
        data: vec![],
    }
}

#[test]
fn derive_agrees_with_has_seeds() {
    let authority = addr(3);
    let seeds = vec![b"vault".to_vec(), vec![1, 2, 3]];
    let (address, bump) = derive_pda(&seeds, &authority).unwrap();

    let account = account_with_key(address);
    assert!(account.has_seeds(&seeds, &authority).is_ok());
    assert!(account
        .has_seeds_with_bump(&seeds, bump, &authority)
        .is_ok());

    // Any other bump is rejected.
    let other_bump = if bump == 0 { 1 } else { bump - 1 };
    assert_eq!(
        account
            .has_seeds_with_bump(&seeds, other_bump, &authority)
            .unwrap_err(),
        AccountError::InvalidSeeds
    );

    // A single altered seed byte no longer derives this address.
    let altered = vec![b"vault".to_vec(), vec![1, 2, 4]];
    assert_eq!(
        account.has_seeds(&altered, &authority).unwrap_err(),
        AccountError::InvalidSeeds
    );

    // A different authority no longer derives this address.
    assert_eq!(
        account.has_seeds(&seeds, &addr(4)).unwrap_err(),
        AccountError::InvalidSeeds
    );
}

#[test]
fn derivation_is_deterministic_and_nontrivial() {
    let authority = addr(3);
    let seeds = vec![b"vault".to_vec()];
    let first = derive_pda(&seeds, &authority).unwrap();
    let second = derive_pda(&seeds, &authority).unwrap();
    assert_eq!(first.0.bytes, second.0.bytes);
    assert_eq!(first.1, second.1);
    // The derived address is a hash image, not any of the inputs.
    assert_ne!(first.0.bytes, authority.bytes);
    assert_ne!(&first.0.bytes[..5], b"vault");
}

#[test]
fn wrong_key_fails_seed_check() {
    let authority = addr(3);
    let seeds = vec![b"vault".to_vec()];
    let account = account_with_key(addr(9));
    assert_eq!(
        account.has_seeds(&seeds, &authority).unwrap_err(),
        AccountError::InvalidSeeds
    );
}

#[test]
fn oversized_seeds_find_no_address() {
    let authority = addr(3);
    // More seed strings than the environment admits.
    let seeds = vec![vec![0u8; 1]; 17];
    assert!(derive_pda(&seeds, &authority).is_none());
    let account = account_with_key(addr(1));
    assert_eq!(
        account.has_seeds(&seeds, &authority).unwrap_err(),
        AccountError::InvalidSeeds
    );
}
