//! The record store: one record per derived address, created once and
//! overwritten in place.

use vstd::prelude::*;
use crate::account::{Account, AccountState};
use crate::address::{derived_address, same_address, Address};
use crate::error::MappingError;
use crate::record::Record;

verus! {

/// A family of records of one program under one namespace.
pub struct Mapping<'a> {
    /// The program that owns the records.
    pub program_id: &'a Address,
    /// The namespace.
    pub name: &'a [u8],
}

/// Whether storage placed at `data_ptr` can be viewed as a record of the
/// alignment `align`. No storage is aligned for the alignment 0.
pub open spec fn aligned(data_ptr: usize, align: nat) -> bool {
    align != 0 && data_ptr as nat % align == 0
}

/// How an operation of the store ended, and the two accounts after it.
pub struct Stored {
    pub result: Result<(), MappingError>,
    /// The account of the record.
    pub account: AccountState,
    /// The account that pays for new storage.
    pub payer: AccountState,
}

/// How an operation that pays for nothing ended, and the account after it.
pub struct Written {
    pub result: Result<(), MappingError>,
    /// The account of the record.
    pub account: AccountState,
}

/// The first use of an account that sits at the right address and that the
/// program does not own yet: the payer funds it with `rent_minimum`, the
/// program becomes its owner, and its storage is exactly `bytes`.
pub open spec fn initialize_spec(
    program_id: Seq<u8>,
    bytes: Seq<u8>,
    align: nat,
    rent_minimum: u64,
    account: AccountState,
    payer: AccountState,
) -> Stored {
    if payer.lamports < rent_minimum {
        Stored { result: Err(MappingError::UnderfundedTransfer), account, payer }
    } else if account.lamports + rent_minimum > u64::MAX {
        Stored { result: Err(MappingError::ArithmeticOverflow), account, payer }
    } else if !aligned(account.data_ptr, align) {
        Stored { result: Err(MappingError::AlignmentInvalid), account, payer }
    } else {
        Stored {
            result: Ok(()),
            account: AccountState {
                owner: program_id,
                lamports: (account.lamports + rent_minimum) as u64,
                data: bytes,
                ..account
            },
            payer: AccountState { lamports: (payer.lamports - rent_minimum) as u64, ..payer },
        }
    }
}

/// Overwriting the storage of an account that sits at the right address and
/// that the program owns.
pub open spec fn overwrite_spec(bytes: Seq<u8>, align: nat, account: AccountState) -> Written {
    if account.data.len() != bytes.len() {
        Written { result: Err(MappingError::SizeMismatch), account }
    } else if !aligned(account.data_ptr, align) {
        Written { result: Err(MappingError::AlignmentInvalid), account }
    } else {
        Written { result: Ok(()), account: AccountState { data: bytes, ..account } }
    }
}

/// What `create` does when the record's address is `expected`. Whatever is
/// refused leaves both accounts as they were.
pub open spec fn create_spec(
    program_id: Seq<u8>,
    expected: Seq<u8>,
    bytes: Seq<u8>,
    align: nat,
    rent_minimum: u64,
    account: AccountState,
    payer: AccountState,
) -> Stored {
    if expected != account.address {
        Stored { result: Err(MappingError::AddressMismatch), account, payer }
    } else if account.owner == program_id {
        Stored { result: Err(MappingError::AlreadyInitialized), account, payer }
    } else {
        initialize_spec(program_id, bytes, align, rent_minimum, account, payer)
    }
}

/// What `update` does when the record's address is `expected`.
pub open spec fn update_spec(
    program_id: Seq<u8>,
    expected: Seq<u8>,
    bytes: Seq<u8>,
    align: nat,
    account: AccountState,
) -> Written {
    if expected != account.address {
        Written { result: Err(MappingError::AddressMismatch), account }
    } else if account.owner != program_id {
        Written { result: Err(MappingError::UninitializedOrNotOwned), account }
    } else {
        overwrite_spec(bytes, align, account)
    }
}

/// What `set` does when the record's address is `expected`: the first use of
/// an account that the program does not own, the overwriting of one it owns.
pub open spec fn set_spec(
    program_id: Seq<u8>,
    expected: Seq<u8>,
    bytes: Seq<u8>,
    align: nat,
    rent_minimum: u64,
    account: AccountState,
    payer: AccountState,
) -> Stored {
    if expected != account.address {
        Stored { result: Err(MappingError::AddressMismatch), account, payer }
    } else if account.owner != program_id {
        initialize_spec(program_id, bytes, align, rent_minimum, account, payer)
    } else {
        let written = overwrite_spec(bytes, align, account);
        Stored { result: written.result, account: written.account, payer }
    }
}

/// What `get` returns when the record's address is `expected`: the stored
/// bytes of a record that the program owns and that fills its layout.
pub open spec fn get_spec(
    program_id: Seq<u8>,
    expected: Seq<u8>,
    size: nat,
    align: nat,
    account: AccountState,
) -> Result<Seq<u8>, MappingError> {
    if expected != account.address {
        Err(MappingError::AddressMismatch)
    } else if account.owner != program_id {
        Err(MappingError::UninitializedOrNotOwned)
    } else if account.data.len() != size {
        Err(MappingError::SizeMismatch)
    } else if !aligned(account.data_ptr, align) {
        Err(MappingError::AlignmentInvalid)
    } else {
        Ok(account.data)
    }
}

impl<'a> Mapping<'a> {
    /// The records of `program_id` under the namespace `name`.
    pub fn new(program_id: &'a Address, name: &'a [u8]) -> (mapping: Mapping<'a>)
        ensures
            mapping.program_id == program_id,
            mapping.name == name,
    {
        Mapping { program_id, name }
    }

    /// The address of the record of `key` and `bump`, as contracts speak of it.
    pub open spec fn address_spec(&self, key: Seq<u8>, bump: u8) -> Seq<u8> {
        derived_address(self.name@, key, bump, self.program_id@)
    }

    /// The address of the record of `key` and `bump`.
    pub fn address_of(&self, key: &Address, bump: u8) -> (address: Address)
        ensures
            address@ == self.address_spec(key@, bump),
    {
        crate::address::derive(self.name, key, bump, self.program_id)
    }

    fn initialize(
        &self,
        bytes: Vec<u8>,
        align: usize,
        account: &mut Account,
        payer: &mut Account,
        rent_minimum: u64,
    ) -> (result: Result<(), MappingError>)
        ensures
            (Stored { result, account: final(account)@, payer: final(payer)@ }) == initialize_spec(
                self.program_id@,
                bytes@,
                align as nat,
                rent_minimum,
                old(account)@,
                old(payer)@,
            ),
    {
        if payer.lamports < rent_minimum {
            return Err(MappingError::UnderfundedTransfer);
        }
        if account.lamports > u64::MAX - rent_minimum {
            return Err(MappingError::ArithmeticOverflow);
        }
        if !is_aligned(account.data_ptr, align) {
            return Err(MappingError::AlignmentInvalid);
        }
        payer.lamports = payer.lamports - rent_minimum;
        account.lamports = account.lamports + rent_minimum;
        account.owner = *self.program_id;
        account.data = bytes;
        Ok(())
    }

    fn overwrite(&self, bytes: Vec<u8>, align: usize, account: &mut Account) -> (result: Result<
        (),
        MappingError,
    >)
        ensures
            (Written { result, account: final(account)@ }) == overwrite_spec(
                bytes@,
                align as nat,
                old(account)@,
            ),
    {
        if account.data.len() != bytes.len() {
            return Err(MappingError::SizeMismatch);
        }
        if !is_aligned(account.data_ptr, align) {
            return Err(MappingError::AlignmentInvalid);
        }
        account.data = bytes;
        Ok(())
    }

    /// Creates the record whose address is `expected` and whose stored bytes
    /// are `bytes` in `account`, funded by `payer` with `rent_minimum`.
    pub fn create_at(
        &self,
        expected: &Address,
        bytes: Vec<u8>,
        align: usize,
        account: &mut Account,
        payer: &mut Account,
        rent_minimum: u64,
    ) -> (result: Result<(), MappingError>)
        ensures
            (Stored { result, account: final(account)@, payer: final(payer)@ }) == create_spec(
                self.program_id@,
                expected@,
                bytes@,
                align as nat,
                rent_minimum,
                old(account)@,
                old(payer)@,
            ),
    {
        if !same_address(expected, &account.address) {
            return Err(MappingError::AddressMismatch);
        }
        if account.is_owned_by(self.program_id) {
            return Err(MappingError::AlreadyInitialized);
        }
        self.initialize(bytes, align, account, payer, rent_minimum)
    }

    /// Overwrites the record whose address is `expected` in `account` with
    /// `bytes`.
    pub fn update_at(
        &self,
        expected: &Address,
        bytes: Vec<u8>,
        align: usize,
        account: &mut Account,
    ) -> (result: Result<(), MappingError>)
        ensures
            (Written { result, account: final(account)@ }) == update_spec(
                self.program_id@,
                expected@,
                bytes@,
                align as nat,
                old(account)@,
            ),
    {
        if !same_address(expected, &account.address) {
            return Err(MappingError::AddressMismatch);
        }
        if !account.is_owned_by(self.program_id) {
            return Err(MappingError::UninitializedOrNotOwned);
        }
        self.overwrite(bytes, align, account)
    }

    /// Creates or overwrites the record whose address is `expected` in
    /// `account` with `bytes`.
    pub fn set_at(
        &self,
        expected: &Address,
        bytes: Vec<u8>,
        align: usize,
        account: &mut Account,
        payer: &mut Account,
        rent_minimum: u64,
    ) -> (result: Result<(), MappingError>)
        ensures
            (Stored { result, account: final(account)@, payer: final(payer)@ }) == set_spec(
                self.program_id@,
                expected@,
                bytes@,
                align as nat,
                rent_minimum,
                old(account)@,
                old(payer)@,
            ),
    {
        if !same_address(expected, &account.address) {
            return Err(MappingError::AddressMismatch);
        }
        if !account.is_owned_by(self.program_id) {
            self.initialize(bytes, align, account, payer, rent_minimum)
        } else {
            self.overwrite(bytes, align, account)
        }
    }

    /// Reads the stored bytes of the record whose address is `expected` and
    /// whose layout has `size` bytes from `account`.
    pub fn get_at<'b>(
        &self,
        expected: &Address,
        size: usize,
        align: usize,
        account: &'b Account,
    ) -> (result: Result<&'b [u8], MappingError>)
        ensures
            get_spec(self.program_id@, expected@, size as nat, align as nat, account@) == (
            match result {
                Ok(bytes) => Ok::<Seq<u8>, MappingError>(bytes@),
                Err(e) => Err::<Seq<u8>, MappingError>(e),
            }),
    {
        if !same_address(expected, &account.address) {
            return Err(MappingError::AddressMismatch);
        }
        if !account.is_owned_by(self.program_id) {
            return Err(MappingError::UninitializedOrNotOwned);
        }
        if account.data.len() != size {
            return Err(MappingError::SizeMismatch);
        }
        if !is_aligned(account.data_ptr, align) {
            return Err(MappingError::AlignmentInvalid);
        }
        Ok(account.data.as_slice())
    }

    /// Creates the record of `key` in `account`, which must sit at the address
    /// derived from the namespace, `key` and the bump that `value` carries.
    /// An account that the program owns already is refused; otherwise `payer`
    /// funds it with `rent_minimum`, the program becomes its owner and its
    /// storage holds exactly the bytes of `value`. Whatever is refused leaves
    /// both accounts as they were.
    pub fn create<T: Record>(
        &self,
        key: &Address,
        value: T,
        account: &mut Account,
        payer: &mut Account,
        rent_minimum: u64,
    ) -> (result: Result<(), MappingError>)
        ensures
            (Stored { result, account: final(account)@, payer: final(payer)@ }) == create_spec(
                self.program_id@,
                self.address_spec(key@, value.bump_value()),
                value.bytes(),
                T::align(),
                rent_minimum,
                old(account)@,
                old(payer)@,
            ),
    {
        let expected = self.address_of(key, value.bump());
        self.create_at(&expected, value.encode(), T::alignment(), account, payer, rent_minimum)
    }

    /// Overwrites the record of `key` in `account`, which must sit at the
    /// derived address, be owned by the program and hold as many bytes as the
    /// record has. Whatever is refused leaves the account as it was.
    pub fn update<T: Record>(&self, key: &Address, value: T, account: &mut Account) -> (result:
        Result<(), MappingError>)
        ensures
            (Written { result, account: final(account)@ }) == update_spec(
                self.program_id@,
                self.address_spec(key@, value.bump_value()),
                value.bytes(),
                T::align(),
                old(account)@,
            ),
    {
        let expected = self.address_of(key, value.bump());
        self.update_at(&expected, value.encode(), T::alignment(), account)
    }

    /// Creates the record of `key` in `account` where the program does not own
    /// the account yet, and overwrites it where it does: that the record is
    /// there already is never the reason for a refusal.
    pub fn set<T: Record>(
        &self,
        key: &Address,
        value: T,
        account: &mut Account,
        payer: &mut Account,
        rent_minimum: u64,
    ) -> (result: Result<(), MappingError>)
        ensures
            (Stored { result, account: final(account)@, payer: final(payer)@ }) == set_spec(
                self.program_id@,
                self.address_spec(key@, value.bump_value()),
                value.bytes(),
                T::align(),
                rent_minimum,
                old(account)@,
                old(payer)@,
            ),
    {
        let expected = self.address_of(key, value.bump());
        self.set_at(&expected, value.encode(), T::alignment(), account, payer, rent_minimum)
    }

    /// Reads the record of `key` and `bump` from `account`, which must sit at
    /// the derived address, be owned by the program and hold as many bytes as
    /// the record has. The value that comes back is the one whose stored bytes
    /// the account holds.
    pub fn get<T: Record>(&self, key: &Address, bump: u8, account: &Account) -> (result: Result<
        T,
        MappingError,
    >)
        ensures
            get_spec(
                self.program_id@,
                self.address_spec(key@, bump),
                T::size(),
                T::align(),
                account@,
            ) == (match result {
                Ok(value) => Ok::<Seq<u8>, MappingError>(value.bytes()),
                Err(e) => Err::<Seq<u8>, MappingError>(e),
            }),
    {
        let expected = self.address_of(key, bump);
        match self.get_at(&expected, T::byte_len(), T::alignment(), account) {
            Ok(bytes) => Ok(T::decode(bytes)),
            Err(e) => Err(e),
        }
    }
}

/// Whether storage placed at `data_ptr` is aligned for `align`.
pub fn is_aligned(data_ptr: usize, align: usize) -> (ok: bool)
    ensures
        ok == aligned(data_ptr, align as nat),
{
    align != 0 && data_ptr % align == 0
}

} // verus!
