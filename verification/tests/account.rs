use steel::{Account, AccountError, Address, SampleRecord};

fn addr(tag: u8) -> Address {
    let mut bytes = [0u8; 32];
    bytes[0] = tag;
    Address::new(bytes)
}

fn demo_account() -> Account {
    let mut data = vec![0u8; 24];
    data[0] = 7;
    data[8] = 42;
    data[16] = 43;
    Account {
        key: addr(1),
        owner: addr(2),
        lamports: 1_000,
        signer: true,
        writable: true,
        executable: false,
        data,
    }
}

#[test]
fn validator_chain_short_circuit() {
    let mut a = demo_account();
    a.signer = false;
    a.writable = false;
    // The chain fails on the first violated predicate: the signer check.
    let err = a.is_signer().and_then(|a| a.is_writable()).unwrap_err();
    assert_eq!(err, AccountError::MissingRequiredSignature);
    // With the signer flag set, the same chain reaches the writable check.
    a.signer = true;
    let err = a.is_signer().and_then(|a| a.is_writable()).unwrap_err();
    assert_eq!(err, AccountError::MissingRequiredSignature);
    a.writable = true;
    assert!(a.is_signer().and_then(|a| a.is_writable()).is_ok());
}

#[test]
fn validator_errors() {
    let mut a = demo_account();
    a.signer = false;
    assert_eq!(
        a.is_signer().unwrap_err(),
        AccountError::MissingRequiredSignature
    );
    assert_eq!(
        a.is_executable().unwrap_err(),
        AccountError::InvalidAccountData
    );
    assert_eq!(
        a.is_empty().unwrap_err(),
        AccountError::AccountAlreadyInitialized
    );
    assert_eq!(
        a.has_address(&addr(9)).unwrap_err(),
        AccountError::InvalidAccountData
    );
    assert_eq!(
        a.has_owner(&addr(9)).unwrap_err(),
        AccountError::InvalidAccountOwner
    );
    assert!(a.has_address(&addr(1)).is_ok());
    assert!(a.has_owner(&addr(2)).is_ok());

    let mut empty = demo_account();
    empty.data = vec![];
    assert!(empty.is_empty().is_ok());
}

#[test]
fn program_and_sysvar_checks() {
    let mut a = demo_account();
    assert_eq!(
        a.is_program(&addr(1)).unwrap_err(),
        AccountError::InvalidAccountData
    );
    a.executable = true;
    assert!(a.is_program(&addr(1)).is_ok());
    assert_eq!(
        a.is_program(&addr(9)).unwrap_err(),
        AccountError::InvalidAccountData
    );

    // A sysvar must be owned by the sysvar authority first.
    assert_eq!(
        a.is_sysvar(&addr(1)).unwrap_err(),
        AccountError::InvalidAccountOwner
    );
    let mut sysvar = demo_account();
    sysvar.owner = steel::sysvar_authority_address();
    assert_eq!(
        sysvar.is_sysvar(&addr(9)).unwrap_err(),
        AccountError::InvalidAccountData
    );
    assert!(sysvar.is_sysvar(&addr(1)).is_ok());
}

#[test]
fn type_check_reads_tag_only() {
    let a = demo_account();
    assert!(a.is_type::<SampleRecord>(&addr(2)).is_ok());
    assert_eq!(
        a.is_type::<SampleRecord>(&addr(9)).unwrap_err(),
        AccountError::InvalidAccountOwner
    );
    let mut wrong_tag = demo_account();
    wrong_tag.data[0] = 6;
    assert_eq!(
        wrong_tag.is_type::<SampleRecord>(&addr(2)).unwrap_err(),
        AccountError::InvalidAccountData
    );
    let mut empty = demo_account();
    empty.data = vec![];
    assert_eq!(
        empty.is_type::<SampleRecord>(&addr(2)).unwrap_err(),
        AccountError::InvalidAccountData
    );
}

#[test]
fn typed_accessor_owner_then_shape() {
    let a = demo_account();
    let v = a.as_account::<SampleRecord>(&addr(2)).unwrap();
    assert_eq!(v.field0, 42);
    assert_eq!(v.field1, 43);

    // The owner is checked before the bytes: even a well-shaped buffer
    // under the wrong owner reports the ownership error.
    assert_eq!(
        a.as_account::<SampleRecord>(&addr(9)).unwrap_err(),
        AccountError::InvalidAccountOwner
    );

    let mut misshapen = demo_account();
    misshapen.data.truncate(23);
    assert_eq!(
        misshapen.as_account::<SampleRecord>(&addr(2)).unwrap_err(),
        AccountError::InvalidAccountData
    );
}

#[test]
fn typed_writer_checks_and_commits() {
    let mut a = demo_account();
    let v = SampleRecord {
        field0: 100,
        field1: 200,
    };
    a.write_account(&addr(2), &v).unwrap();
    assert_eq!(a.as_account::<SampleRecord>(&addr(2)).unwrap(), v);

    a.writable = false;
    assert_eq!(
        a.write_account(&addr(2), &v).unwrap_err(),
        AccountError::AccountBorrowFailed
    );
    a.writable = true;
    assert_eq!(
        a.write_account(&addr(9), &v).unwrap_err(),
        AccountError::InvalidAccountOwner
    );
}

#[test]
fn set_discriminator_stamps_tag() {
    let mut a = demo_account();
    a.data = vec![0u8; 24];
    a.set_discriminator::<SampleRecord>().unwrap();
    assert_eq!(a.data[0], 7);
    a.writable = false;
    assert_eq!(
        a.set_discriminator::<SampleRecord>().unwrap_err(),
        AccountError::AccountBorrowFailed
    );
}

#[test]
fn validate_checks_conditions() {
    let a = demo_account();
    assert!(a.validate(|x: &Account| x.lamports == 1_000).is_ok());
    assert_eq!(
        a.validate(|x: &Account| x.lamports > 1_000).unwrap_err(),
        AccountError::InvalidAccountData
    );
    assert!(a
        .validate(|x: &Account| x.data.len() == 24)
        .and_then(|x| x.is_signer())
        .is_ok());
    assert_eq!(
        a.validate_err(|x: &Account| x.executable, AccountError::Custom(9))
            .unwrap_err(),
        AccountError::Custom(9)
    );
}

#[test]
fn lamport_conservation() {
    let mut from = demo_account();
    let mut to = demo_account();
    from.lamports = 700;
    to.lamports = 55;
    from.send(300, &mut to);
    assert_eq!(from.lamports, 400);
    assert_eq!(to.lamports, 355);
    assert_eq!(from.lamports + to.lamports, 700 + 55);

    let mut collector = demo_account();
    collector.lamports = 5;
    let mut source = demo_account();
    source.lamports = 10;
    collector.collect(10, &mut source);
    assert_eq!(collector.lamports, 15);
    assert_eq!(source.lamports, 0);
}

#[test]
fn close_drains_clears_and_reassigns() {
    let mut account = demo_account();
    let mut recipient = demo_account();
    account.lamports = 900;
    recipient.lamports = 100;
    let before = account.lamports;
    let recipient_before = recipient.lamports;
    account.close(&mut recipient);
    assert_eq!(account.data.len(), 0);
    assert_eq!(account.lamports, 0);
    assert_eq!(recipient.lamports, recipient_before + before);
    assert_eq!(
        account.owner.bytes,
        steel::default_authority_address().bytes
    );
    // The recipient's buffer is untouched.
    assert_eq!(recipient.data.len(), 24);
}
