//! The ledger's accounts as plain values, and the transfer of balance between
//! two of them.

use vstd::prelude::*;
use crate::address::Address;
use crate::error::MappingError;

verus! {

/// An account of the ledger.
#[derive(Clone, Debug, PartialEq, Eq)]
pub struct Account {
    /// Where the account sits.
    pub address: Address,
    /// The program that may interpret and change the storage.
    pub owner: Address,
    /// The balance.
    pub lamports: u64,
    /// The storage.
    pub data: Vec<u8>,
    /// Where in memory the host placed the storage.
    pub data_ptr: usize,
}

/// What an account holds, as mathematical values.
pub struct AccountState {
    pub address: Seq<u8>,
    pub owner: Seq<u8>,
    pub lamports: u64,
    pub data: Seq<u8>,
    pub data_ptr: usize,
}

impl View for Account {
    type V = AccountState;

    open spec fn view(&self) -> AccountState {
        AccountState {
            address: self.address@,
            owner: self.owner@,
            lamports: self.lamports,
            data: self.data@,
            data_ptr: self.data_ptr,
        }
    }
}

/// How a transfer ended, and the two accounts after it.
pub struct Moved {
    pub result: Result<(), MappingError>,
    pub from: AccountState,
    pub to: AccountState,
}

/// Moving `amount` from one balance to another. A refusal changes nothing.
pub open spec fn transfer_spec(from: AccountState, to: AccountState, amount: u64) -> Moved {
    if from.lamports < amount {
        Moved { result: Err(MappingError::UnderfundedTransfer), from, to }
    } else if to.lamports + amount > u64::MAX {
        Moved { result: Err(MappingError::ArithmeticOverflow), from, to }
    } else {
        Moved {
            result: Ok(()),
            from: AccountState { lamports: (from.lamports - amount) as u64, ..from },
            to: AccountState { lamports: (to.lamports + amount) as u64, ..to },
        }
    }
}

impl Account {
    /// An account at `address` under `owner`, with a balance and no storage.
    pub fn new(address: Address, owner: Address, lamports: u64) -> (account: Account)
        ensures
            account@ == (AccountState {
                address: address@,
                owner: owner@,
                lamports,
                data: Seq::empty(),
                data_ptr: 0,
            }),
    {
        Account { address, owner, lamports, data: Vec::new(), data_ptr: 0 }
    }

    /// Whether the program `program_id` owns the account.
    pub fn is_owned_by(&self, program_id: &Address) -> (owned: bool)
        ensures
            owned == (self@.owner == program_id@),
    {
        crate::address::same_address(&self.owner, program_id)
    }
}

/// Moves `amount` from `from` to `to`, or refuses and leaves both as they were.
pub fn transfer(from: &mut Account, to: &mut Account, amount: u64) -> (result: Result<
    (),
    MappingError,
>)
    ensures
        result == transfer_spec(old(from)@, old(to)@, amount).result,
        final(from)@ == transfer_spec(old(from)@, old(to)@, amount).from,
        final(to)@ == transfer_spec(old(from)@, old(to)@, amount).to,
{
    if from.lamports < amount {
        return Err(MappingError::UnderfundedTransfer);
    }
    if to.lamports > u64::MAX - amount {
        return Err(MappingError::ArithmeticOverflow);
    }
    from.lamports = from.lamports - amount;
    to.lamports = to.lamports + amount;
    Ok(())
}

} // verus!
