use pda_pinocchio_mapping::account::{transfer, Account};
use pda_pinocchio_mapping::address;
use pda_pinocchio_mapping::error::MappingError;
use pda_pinocchio_mapping::mapping::Mapping;
use pda_pinocchio_mapping::record::Record;
use pda_pinocchio_mapping::escrow::EscrowRecord;
use pda_pinocchio_mapping::shares::ShareRecord;

const PROGRAM: [u8; 32] = [7u8; 32];
const SYSTEM: [u8; 32] = [0u8; 32];
const KEY: [u8; 32] = [21u8; 32];
const PAYER: [u8; 32] = [22u8; 32];
const RENT: u64 = 1_398_960;

fn share(amount: u64, bump: u8) -> ShareRecord {
    ShareRecord { maker: [5u8; 32], taker: KEY, amount, bump }
}

fn empty_account_at(address: [u8; 32]) -> Account {
    Account::new(address, SYSTEM, 0)
}

fn payer_with(lamports: u64) -> Account {
    Account::new(PAYER, SYSTEM, lamports)
}

#[test]
fn new_account_is_empty() {
    let a = Account::new(KEY, SYSTEM, 5);
    assert_eq!(a.address, KEY);
    assert_eq!(a.owner, SYSTEM);
    assert_eq!(a.lamports, 5);
    assert!(a.data.is_empty());
    assert_eq!(a.data_ptr, 0);
    assert!(a.is_owned_by(&SYSTEM));
    assert!(!a.is_owned_by(&PROGRAM));
}

#[test]
fn transfer_moves_the_amount() {
    let mut from = payer_with(10);
    let mut to = empty_account_at(KEY);
    assert_eq!(transfer(&mut from, &mut to, 4), Ok(()));
    assert_eq!(from.lamports, 6);
    assert_eq!(to.lamports, 4);
    assert_eq!(transfer(&mut from, &mut to, 6), Ok(()));
    assert_eq!(from.lamports, 0);
    assert_eq!(to.lamports, 10);
}

#[test]
fn transfer_refuses_what_is_not_there() {
    let mut from = payer_with(10);
    let mut to = empty_account_at(KEY);
    assert_eq!(transfer(&mut from, &mut to, 11), Err(MappingError::UnderfundedTransfer));
    assert_eq!(from.lamports, 10);
    assert_eq!(to.lamports, 0);
}

#[test]
fn transfer_refuses_an_overflow() {
    let mut from = payer_with(10);
    let mut to = Account::new(KEY, SYSTEM, u64::MAX - 3);
    assert_eq!(transfer(&mut from, &mut to, 4), Err(MappingError::ArithmeticOverflow));
    assert_eq!(from.lamports, 10);
    assert_eq!(to.lamports, u64::MAX - 3);
    assert_eq!(transfer(&mut from, &mut to, 3), Ok(()));
    assert_eq!(to.lamports, u64::MAX);
}

#[test]
fn create_allocates_and_writes() {
    let mapping = Mapping::new(&PROGRAM, b"shares");
    let mut account = empty_account_at(address::derive(b"shares", &KEY, 3, &PROGRAM));
    let mut payer = payer_with(10_000_000);
    let value = share(1_000_000_000, 3);
    assert_eq!(mapping.create(&KEY, value, &mut account, &mut payer, RENT), Ok(()));
    assert_eq!(account.owner, PROGRAM);
    assert_eq!(account.lamports, RENT);
    assert_eq!(account.data, value.encode());
    assert_eq!(account.data.len(), 73);
    assert_eq!(payer.lamports, 10_000_000 - RENT);
    assert_eq!(mapping.get::<ShareRecord>(&KEY, 3, &account), Ok(value));
}

#[test]
fn create_then_update_reads_back_the_last_write() {
    let mapping = Mapping::new(&PROGRAM, b"shares");
    let mut account = empty_account_at(address::derive(b"shares", &KEY, 3, &PROGRAM));
    let mut payer = payer_with(10_000_000);
    assert_eq!(mapping.create(&KEY, share(1, 3), &mut account, &mut payer, RENT), Ok(()));
    let second = share(0xdead_beef_0000_0001, 3);
    assert_eq!(mapping.update(&KEY, second, &mut account), Ok(()));
    assert_eq!(account.data, second.encode());
    assert_eq!(account.lamports, RENT);
    assert_eq!(mapping.get::<ShareRecord>(&KEY, 3, &account), Ok(second));
}

#[test]
fn create_then_set_reads_back_the_last_write() {
    let mapping = Mapping::new(&PROGRAM, b"shares");
    let mut account = empty_account_at(address::derive(b"shares", &KEY, 3, &PROGRAM));
    let mut payer = payer_with(10_000_000);
    assert_eq!(mapping.create(&KEY, share(1, 3), &mut account, &mut payer, RENT), Ok(()));
    let second = share(77, 3);
    assert_eq!(mapping.set(&KEY, second, &mut account, &mut payer, RENT), Ok(()));
    assert_eq!(account.data, second.encode());
    assert_eq!(payer.lamports, 10_000_000 - RENT);
    assert_eq!(mapping.get::<ShareRecord>(&KEY, 3, &account), Ok(second));
}

#[test]
fn create_twice_is_refused_and_keeps_the_first() {
    let mapping = Mapping::new(&PROGRAM, b"shares");
    let mut account = empty_account_at(address::derive(b"shares", &KEY, 3, &PROGRAM));
    let mut payer = payer_with(10_000_000);
    let first = share(1, 3);
    assert_eq!(mapping.create(&KEY, first, &mut account, &mut payer, RENT), Ok(()));
    let after_first = account.clone();
    let payer_after_first = payer.clone();
    assert_eq!(
        mapping.create(&KEY, share(2, 3), &mut account, &mut payer, RENT),
        Err(MappingError::AlreadyInitialized)
    );
    assert_eq!(account, after_first);
    assert_eq!(payer, payer_after_first);
    assert_eq!(account.data, first.encode());
}

#[test]
fn set_twice_with_one_value_stores_the_same_bytes() {
    let mapping = Mapping::new(&PROGRAM, b"shares");
    let mut account = empty_account_at(address::derive(b"shares", &KEY, 3, &PROGRAM));
    let mut payer = payer_with(10_000_000);
    let value = share(9, 3);
    assert_eq!(mapping.set(&KEY, value, &mut account, &mut payer, RENT), Ok(()));
    let after_first = account.clone();
    let payer_after_first = payer.clone();
    assert_eq!(mapping.set(&KEY, value, &mut account, &mut payer, RENT), Ok(()));
    assert_eq!(account, after_first);
    assert_eq!(payer, payer_after_first);
    assert_eq!(account.data, value.encode());
}

#[test]
fn another_bump_is_an_address_mismatch() {
    let mapping = Mapping::new(&PROGRAM, b"shares");
    let mut account = empty_account_at(address::derive(b"shares", &KEY, 3, &PROGRAM));
    let mut payer = payer_with(10_000_000);
    assert_eq!(mapping.create(&KEY, share(1, 3), &mut account, &mut payer, RENT), Ok(()));
    let before = account.clone();
    let payer_before = payer.clone();
    assert_eq!(
        mapping.create(&KEY, share(1, 4), &mut account, &mut payer, RENT),
        Err(MappingError::AddressMismatch)
    );
    assert_eq!(
        mapping.update(&KEY, share(1, 4), &mut account),
        Err(MappingError::AddressMismatch)
    );
    assert_eq!(
        mapping.set(&KEY, share(1, 4), &mut account, &mut payer, RENT),
        Err(MappingError::AddressMismatch)
    );
    assert_eq!(
        mapping.get::<ShareRecord>(&KEY, 4, &account),
        Err(MappingError::AddressMismatch)
    );
    assert_eq!(account, before);
    assert_eq!(payer, payer_before);
}

#[test]
fn another_namespace_key_or_program_is_an_address_mismatch() {
    let mut account = empty_account_at(address::derive(b"shares", &KEY, 3, &PROGRAM));
    let mut payer = payer_with(10_000_000);
    let other_name = Mapping::new(&PROGRAM, b"escrow");
    assert_eq!(
        other_name.create(&KEY, share(1, 3), &mut account, &mut payer, RENT),
        Err(MappingError::AddressMismatch)
    );
    let other_program = [8u8; 32];
    let other = Mapping::new(&other_program, b"shares");
    assert_eq!(
        other.set(&KEY, share(1, 3), &mut account, &mut payer, RENT),
        Err(MappingError::AddressMismatch)
    );
    let mapping = Mapping::new(&PROGRAM, b"shares");
    assert_eq!(
        mapping.set(&PAYER, share(1, 3), &mut account, &mut payer, RENT),
        Err(MappingError::AddressMismatch)
    );
    assert!(account.data.is_empty());
    assert_eq!(account.owner, SYSTEM);
    assert_eq!(payer.lamports, 10_000_000);
}

#[test]
fn update_needs_an_owned_account() {
    let mapping = Mapping::new(&PROGRAM, b"shares");
    let mut account = empty_account_at(address::derive(b"shares", &KEY, 3, &PROGRAM));
    assert_eq!(
        mapping.update(&KEY, share(1, 3), &mut account),
        Err(MappingError::UninitializedOrNotOwned)
    );
    assert!(account.data.is_empty());
    assert_eq!(
        mapping.get::<ShareRecord>(&KEY, 3, &account),
        Err(MappingError::UninitializedOrNotOwned)
    );
}

#[test]
fn update_needs_the_length_of_the_record() {
    let mapping = Mapping::new(&PROGRAM, b"shares");
    let mut account = empty_account_at(address::derive(b"shares", &KEY, 3, &PROGRAM));
    account.owner = PROGRAM;
    account.data = vec![1u8; 49];
    let mut payer = payer_with(10_000_000);
    assert_eq!(
        mapping.update(&KEY, share(1, 3), &mut account),
        Err(MappingError::SizeMismatch)
    );
    assert_eq!(
        mapping.set(&KEY, share(1, 3), &mut account, &mut payer, RENT),
        Err(MappingError::SizeMismatch)
    );
    assert_eq!(
        mapping.get::<ShareRecord>(&KEY, 3, &account),
        Err(MappingError::SizeMismatch)
    );
    assert_eq!(account.data, vec![1u8; 49]);
    assert_eq!(payer.lamports, 10_000_000);
}

#[test]
fn create_needs_a_funded_payer() {
    let mapping = Mapping::new(&PROGRAM, b"shares");
    let mut account = empty_account_at(address::derive(b"shares", &KEY, 3, &PROGRAM));
    let mut payer = payer_with(RENT - 1);
    assert_eq!(
        mapping.create(&KEY, share(1, 3), &mut account, &mut payer, RENT),
        Err(MappingError::UnderfundedTransfer)
    );
    assert_eq!(account, empty_account_at(address::derive(b"shares", &KEY, 3, &PROGRAM)));
    assert_eq!(payer.lamports, RENT - 1);
    let mut payer = payer_with(RENT);
    assert_eq!(mapping.set(&KEY, share(1, 3), &mut account, &mut payer, RENT), Ok(()));
    assert_eq!(payer.lamports, 0);
    assert_eq!(account.lamports, RENT);
}

#[test]
fn create_refuses_a_balance_past_the_largest() {
    let mapping = Mapping::new(&PROGRAM, b"shares");
    let mut account = empty_account_at(address::derive(b"shares", &KEY, 3, &PROGRAM));
    account.lamports = u64::MAX;
    let mut payer = payer_with(10_000_000);
    assert_eq!(
        mapping.create(&KEY, share(1, 3), &mut account, &mut payer, RENT),
        Err(MappingError::ArithmeticOverflow)
    );
    assert_eq!(account.owner, SYSTEM);
    assert_eq!(payer.lamports, 10_000_000);
}

#[test]
fn the_derived_address_can_be_handed_in() {
    let mapping = Mapping::new(&PROGRAM, b"shares");
    let here = [40u8; 32];
    let mut account = empty_account_at(here);
    let mut payer = payer_with(10_000_000);
    let value = EscrowRecord { maker: KEY, amount_to_receive: 2, amount_to_give: 1, bump: 0 };
    assert_eq!(
        mapping.create_at(&[41u8; 32], value.encode(), 1, &mut account, &mut payer, RENT),
        Err(MappingError::AddressMismatch)
    );
    assert_eq!(
        mapping.create_at(&here, value.encode(), 1, &mut account, &mut payer, RENT),
        Ok(())
    );
    assert_eq!(account.data.len(), 49);
    assert_eq!(mapping.get_at(&here, 49, 1, &account), Ok(&value.encode()[..]));
    let second = EscrowRecord { amount_to_give: 3, ..value };
    assert_eq!(mapping.update_at(&here, second.encode(), 1, &mut account), Ok(()));
    assert_eq!(mapping.get_at(&here, 49, 1, &account), Ok(&second.encode()[..]));
    assert_eq!(
        mapping.set_at(&here, value.encode(), 1, &mut account, &mut payer, RENT),
        Ok(())
    );
    assert_eq!(mapping.get_at(&here, 49, 1, &account), Ok(&value.encode()[..]));
    assert_eq!(mapping.get_at(&here, 73, 1, &account), Err(MappingError::SizeMismatch));
    assert_eq!(
        mapping.get_at(&[41u8; 32], 49, 1, &account),
        Err(MappingError::AddressMismatch)
    );
    assert_eq!(
        mapping.update_at(&here, vec![0u8; 48], 1, &mut account),
        Err(MappingError::SizeMismatch)
    );
}
