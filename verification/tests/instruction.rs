use steel::{
    allocate_ix_data, assign_ix_data, create_account_ix_data, parse_instruction,
    plan_allocation, rent_minimum_balance, transfer_ix_data, Account, AccountError, Address,
    AllocationPlan, SystemInstruction,
};

fn addr(tag: u8) -> Address {
    let mut bytes = [0u8; 32];
    bytes[0] = tag;
    Address::new(bytes)
}

#[test]
fn create_account_payload_layout() {
    let owner = addr(5);
    let data = create_account_ix_data(1, 2, &owner);
    assert_eq!(data.len(), 52);
    assert_eq!(&data[0..4], &[0, 0, 0, 0]);
    assert_eq!(&data[4..12], &[1, 0, 0, 0, 0, 0, 0, 0]);
    assert_eq!(&data[12..20], &[2, 0, 0, 0, 0, 0, 0, 0]);
    assert_eq!(&data[20..52], &owner.bytes);
}

#[test]
fn transfer_payload_layout() {
    let data = transfer_ix_data(0x0102);
    assert_eq!(data.len(), 12);
    assert_eq!(&data[0..4], &[2, 0, 0, 0]);
    assert_eq!(&data[4..12], &[0x02, 0x01, 0, 0, 0, 0, 0, 0]);
}

#[test]
fn allocate_payload_layout() {
    let data = allocate_ix_data(24);
    assert_eq!(data.len(), 12);
    assert_eq!(&data[0..4], &[8, 0, 0, 0]);
    assert_eq!(&data[4..12], &[24, 0, 0, 0, 0, 0, 0, 0]);
}

#[test]
fn assign_payload_layout() {
    let owner = addr(6);
    let data = assign_ix_data(&owner);
    assert_eq!(data.len(), 36);
    assert_eq!(&data[0..4], &[1, 0, 0, 0]);
    assert_eq!(&data[4..36], &owner.bytes);
}

#[test]
fn system_instruction_tags() {
    assert_eq!(SystemInstruction::CreateAccount.tag(), 0);
    assert_eq!(SystemInstruction::Assign.tag(), 1);
    assert_eq!(SystemInstruction::Transfer.tag(), 2);
    assert_eq!(SystemInstruction::Allocate.tag(), 8);
    assert_eq!(SystemInstruction::UpgradeNonceAccount.tag(), 12);
}

#[test]
fn parse_instruction_decodes_payload() {
    let api = addr(1);
    let payload = [2u8, 9, 9];
    let (ix, rest): (SystemInstruction, &[u8]) =
        parse_instruction(&api, &addr(1), &payload).unwrap();
    assert_eq!(ix, SystemInstruction::Transfer);
    assert_eq!(rest, &[9, 9]);

    // A wrong program id is reported before the payload is touched.
    let err = parse_instruction::<SystemInstruction>(&api, &addr(2), &payload).unwrap_err();
    assert_eq!(err, AccountError::IncorrectProgramId);

    // An empty payload has no tag.
    let err = parse_instruction::<SystemInstruction>(&api, &addr(1), &[]).unwrap_err();
    assert_eq!(err, AccountError::InvalidInstructionData);

    // An unknown tag is rejected.
    let err = parse_instruction::<SystemInstruction>(&api, &addr(1), &[13]).unwrap_err();
    assert_eq!(err, AccountError::InvalidInstructionData);
}

#[test]
fn rent_and_allocation_plan() {
    assert_eq!(rent_minimum_balance(0), 128 * 6960);
    assert_eq!(rent_minimum_balance(24), (24 + 128) * 6960);

    // A fresh account is created outright with the full minimum.
    let plan = plan_allocation(0, 24);
    assert_eq!(
        plan,
        AllocationPlan::Create {
            lamports: (24 + 128) * 6960,
            space: 24
        }
    );

    // An already-funded account is only topped up by the shortfall.
    let minimum = rent_minimum_balance(24);
    let plan = plan_allocation(1_000, 24);
    assert_eq!(
        plan,
        AllocationPlan::Extend {
            top_up: minimum - 1_000,
            space: 24
        }
    );

    // A fully funded account needs no top-up at all.
    let plan = plan_allocation(minimum + 5, 24);
    assert_eq!(
        plan,
        AllocationPlan::Extend {
            top_up: 0,
            space: 24
        }
    );
}

#[test]
fn payload_roundtrip_through_parser() {
    // A transfer payload built by the library parses back to a
    // transfer of the same amount.
    let api = addr(1);
    let payload = transfer_ix_data(777);
    let (ix, rest): (SystemInstruction, &[u8]) =
        parse_instruction(&api, &addr(1), &payload).unwrap();
    assert_eq!(ix, SystemInstruction::Transfer);
    assert_eq!(steel::le_decode(&rest[3..11]), 777);
}

#[test]
fn account_demo_flow() {
    // An account freshly allocated by the plan: stamp its type tag and
    // write its first record.
    let program = addr(2);
    let mut account = Account {
        key: addr(1),
        owner: program,
        lamports: rent_minimum_balance(16),
        signer: false,
        writable: true,
        executable: false,
        data: vec![0u8; 24],
    };
    account
        .set_discriminator::<steel::SampleRecord>()
        .unwrap();
    let record = steel::SampleRecord {
        field0: 1,
        field1: 2,
    };
    account.write_account(&program, &record).unwrap();
    assert_eq!(account.as_account::<steel::SampleRecord>(&program).unwrap(), record);
}
