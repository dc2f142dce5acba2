//! The bytes of an instruction, and the routing of an instruction to its
//! operation.

use vstd::prelude::*;
use crate::account::{Account, AccountState};
use crate::address::Address;
use crate::error::MappingError;
use crate::escrow::{make, make_spec};
use crate::record::{push_u64_le, read_u64_le, u64_from_le, u64_le, u64_le_round_trip};
use crate::shares::{take, take_spec};

verus! {

/// What a client asks for.
#[derive(Clone, Copy, Debug, PartialEq, Eq, Structural)]
pub enum Instruction {
    /// Create an offer.
    Make { bump: u8, amount_to_receive: u64, amount_to_give: u64 },
    /// Settle.
    Take { shares_bump: u8, amount_to_receive: u64, amount_to_give: u64 },
}

/// The instruction that `data` holds: the opcode, 0 for an offer and 1 for a
/// settlement, then the bump in one byte and the two amounts, each in eight
/// bytes with the least significant first. Bytes after these eighteen are not
/// read.
pub open spec fn parse_spec(data: Seq<u8>) -> Result<Instruction, MappingError> {
    if data.len() == 0 {
        Err(MappingError::InvalidInstructionData)
    } else if data[0] > 1 {
        Err(MappingError::UnknownDiscriminator)
    } else if data.len() < 18 {
        Err(MappingError::InvalidInstructionData)
    } else if data[0] == 0 {
        Ok(
            Instruction::Make {
                bump: data[1],
                amount_to_receive: u64_from_le(data.subrange(2, 10)),
                amount_to_give: u64_from_le(data.subrange(10, 18)),
            },
        )
    } else {
        Ok(
            Instruction::Take {
                shares_bump: data[1],
                amount_to_receive: u64_from_le(data.subrange(2, 10)),
                amount_to_give: u64_from_le(data.subrange(10, 18)),
            },
        )
    }
}

/// The eighteen bytes of an instruction.
pub open spec fn instruction_bytes(instruction: Instruction) -> Seq<u8> {
    match instruction {
        Instruction::Make { bump, amount_to_receive, amount_to_give } => seq![0u8, bump] + u64_le(
            amount_to_receive,
        ) + u64_le(amount_to_give),
        Instruction::Take { shares_bump, amount_to_receive, amount_to_give } => seq![
            1u8,
            shares_bump,
        ] + u64_le(amount_to_receive) + u64_le(amount_to_give),
    }
}

/// Decoding the bytes of an instruction gives the instruction.
pub proof fn parse_of_bytes(instruction: Instruction)
    ensures
        parse_spec(instruction_bytes(instruction)) == Ok::<Instruction, MappingError>(instruction),
{
    let data = instruction_bytes(instruction);
    match instruction {
        Instruction::Make { bump, amount_to_receive, amount_to_give } => {
            u64_le_round_trip(amount_to_receive);
            u64_le_round_trip(amount_to_give);
            assert(data.subrange(2, 10) =~= u64_le(amount_to_receive));
            assert(data.subrange(10, 18) =~= u64_le(amount_to_give));
        },
        Instruction::Take { shares_bump, amount_to_receive, amount_to_give } => {
            u64_le_round_trip(amount_to_receive);
            u64_le_round_trip(amount_to_give);
            assert(data.subrange(2, 10) =~= u64_le(amount_to_receive));
            assert(data.subrange(10, 18) =~= u64_le(amount_to_give));
        },
    }
}

impl Instruction {
    /// Decodes an instruction. No field is read before the length of `data`
    /// was held against the eighteen bytes that the fields take.
    pub fn parse(data: &[u8]) -> (result: Result<Instruction, MappingError>)
        ensures
            result == parse_spec(data@),
    {
        if data.len() == 0 {
            return Err(MappingError::InvalidInstructionData);
        }
        let opcode: u8 = data[0];
        if opcode > 1 {
            return Err(MappingError::UnknownDiscriminator);
        }
        if data.len() < 18 {
            return Err(MappingError::InvalidInstructionData);
        }
        let bump: u8 = data[1];
        let amount_to_receive: u64 = read_u64_le(data, 2);
        let amount_to_give: u64 = read_u64_le(data, 10);
        if opcode == 0 {
            Ok(Instruction::Make { bump, amount_to_receive, amount_to_give })
        } else {
            Ok(Instruction::Take { shares_bump: bump, amount_to_receive, amount_to_give })
        }
    }

    /// The bytes that a client sends for the instruction.
    pub fn to_bytes(&self) -> (out: Vec<u8>)
        ensures
            out@ == instruction_bytes(*self),
    {
        let mut out: Vec<u8> = Vec::new();
        match self {
            Instruction::Make { bump, amount_to_receive, amount_to_give } => {
                out.push(0u8);
                out.push(*bump);
                push_u64_le(&mut out, *amount_to_receive);
                push_u64_le(&mut out, *amount_to_give);
            },
            Instruction::Take { shares_bump, amount_to_receive, amount_to_give } => {
                out.push(1u8);
                out.push(*shares_bump);
                push_u64_le(&mut out, *amount_to_receive);
                push_u64_le(&mut out, *amount_to_give);
            },
        }
        assert(out@ =~= instruction_bytes(*self));
        out
    }
}

/// What each account of a list holds.
pub open spec fn states(accounts: Seq<Account>) -> Seq<AccountState> {
    Seq::new(accounts.len(), |i: int| accounts[i]@)
}

/// How an instruction ended, and the accounts after it.
pub struct Processed {
    pub result: Result<(), MappingError>,
    pub accounts: Seq<AccountState>,
}

/// The number of accounts that an instruction with this opcode names: for an
/// offer the maker, the account of the offer and the allocating program; for
/// a settlement the taker, the maker, the account of the offer, the account of
/// the settlement and the allocating program.
pub open spec fn accounts_needed(opcode: u8) -> nat {
    if opcode == 0 {
        3
    } else {
        5
    }
}

/// The number of accounts that an instruction with this opcode names.
pub fn needs_accounts(opcode: u8) -> (n: usize)
    ensures
        n == accounts_needed(opcode),
{
    if opcode == 0 {
        3
    } else {
        5
    }
}

/// An offer on a list of accounts: the maker stands first, the account of the
/// offer second.
pub open spec fn make_on(
    program_id: Seq<u8>,
    bump: u8,
    amount_to_receive: u64,
    amount_to_give: u64,
    rent_minimum: u64,
    accounts: Seq<AccountState>,
) -> Processed
    recommends
        accounts.len() >= 2,
{
    let made = make_spec(
        program_id,
        bump,
        amount_to_receive,
        amount_to_give,
        rent_minimum,
        accounts[1],
        accounts[0],
    );
    Processed {
        result: made.result,
        accounts: accounts.update(0, made.payer).update(1, made.account),
    }
}

/// A settlement on a list of accounts: the taker stands first, the maker
/// second, the account of the settlement fourth.
pub open spec fn take_on(
    program_id: Seq<u8>,
    shares_bump: u8,
    amount_to_receive: u64,
    amount_to_give: u64,
    rent_minimum: u64,
    accounts: Seq<AccountState>,
) -> Processed
    recommends
        accounts.len() >= 4,
{
    let taken = take_spec(
        program_id,
        shares_bump,
        amount_to_receive,
        amount_to_give,
        rent_minimum,
        accounts[0],
        accounts[1],
        accounts[3],
    );
    Processed {
        result: taken.result,
        accounts: accounts.update(0, taken.taker).update(1, taken.maker).update(3, taken.shares),
    }
}

/// What `process_instruction` does: it decodes the instruction, counts the
/// accounts, and carries out the offer or the settlement. Whatever is refused
/// leaves every account as it was.
pub open spec fn process_spec(
    program_id: Seq<u8>,
    data: Seq<u8>,
    rent_minimum: u64,
    accounts: Seq<AccountState>,
) -> Processed {
    if data.len() == 0 {
        Processed { result: Err(MappingError::InvalidInstructionData), accounts }
    } else if data[0] > 1 {
        Processed { result: Err(MappingError::UnknownDiscriminator), accounts }
    } else if accounts.len() < accounts_needed(data[0]) {
        Processed { result: Err(MappingError::MissingAccounts), accounts }
    } else {
        match parse_spec(data) {
            Err(e) => Processed { result: Err(e), accounts },
            Ok(Instruction::Make { bump, amount_to_receive, amount_to_give }) => make_on(
                program_id,
                bump,
                amount_to_receive,
                amount_to_give,
                rent_minimum,
                accounts,
            ),
            Ok(Instruction::Take { shares_bump, amount_to_receive, amount_to_give }) => take_on(
                program_id,
                shares_bump,
                amount_to_receive,
                amount_to_give,
                rent_minimum,
                accounts,
            ),
        }
    }
}

/// Carries out an offer on the first two accounts of the list.
fn make_in(
    program_id: &Address,
    accounts: &mut Vec<Account>,
    bump: u8,
    amount_to_receive: u64,
    amount_to_give: u64,
    rent_minimum: u64,
) -> (result: Result<(), MappingError>)
    requires
        old(accounts)@.len() >= 2,
    ensures
        (Processed { result, accounts: states(final(accounts)@) }) == make_on(
            program_id@,
            bump,
            amount_to_receive,
            amount_to_give,
            rent_minimum,
            states(old(accounts)@),
        ),
{
    let ghost before = accounts@;
    let mut escrow = accounts.remove(1);
    let mut maker = accounts.remove(0);
    let result = make(
        program_id,
        &mut maker,
        &mut escrow,
        bump,
        amount_to_receive,
        amount_to_give,
        rent_minimum,
    );
    accounts.insert(0, maker);
    accounts.insert(1, escrow);
    proof {
        let after = accounts@;
        let wanted = states(before).update(0, maker@).update(1, escrow@);
        assert(after.len() == before.len());
        assert forall|i: int| 0 <= i < after.len() implies states(after)[i] == wanted[i] by {
            if i >= 2 {
                assert(after[i] == before[i]);
            }
        }
        assert(states(after) =~= wanted);
    }
    result
}

/// Carries out a settlement on the first, second and fourth account of the
/// list.
fn take_in(
    program_id: &Address,
    accounts: &mut Vec<Account>,
    shares_bump: u8,
    amount_to_receive: u64,
    amount_to_give: u64,
    rent_minimum: u64,
) -> (result: Result<(), MappingError>)
    requires
        old(accounts)@.len() >= 4,
    ensures
        (Processed { result, accounts: states(final(accounts)@) }) == take_on(
            program_id@,
            shares_bump,
            amount_to_receive,
            amount_to_give,
            rent_minimum,
            states(old(accounts)@),
        ),
{
    let ghost before = accounts@;
    let mut shares = accounts.remove(3);
    let mut maker = accounts.remove(1);
    let mut taker = accounts.remove(0);
    let result = take(
        program_id,
        &mut taker,
        &mut maker,
        &mut shares,
        shares_bump,
        amount_to_receive,
        amount_to_give,
        rent_minimum,
    );
    accounts.insert(0, taker);
    accounts.insert(1, maker);
    accounts.insert(3, shares);
    proof {
        let after = accounts@;
        let wanted = states(before).update(0, taker@).update(1, maker@).update(3, shares@);
        assert(after.len() == before.len());
        assert forall|i: int| 0 <= i < after.len() implies states(after)[i] == wanted[i] by {
            if i == 2 || i >= 4 {
                assert(after[i] == before[i]);
            }
        }
        assert(states(after) =~= wanted);
    }
    result
}

/// Decodes `data` and carries out the offer or the settlement on the accounts
/// that it names by their places in `accounts`.
pub fn process_instruction(
    program_id: &Address,
    accounts: &mut Vec<Account>,
    data: &[u8],
    rent_minimum: u64,
) -> (result: Result<(), MappingError>)
    ensures
        (Processed { result, accounts: states(final(accounts)@) }) == process_spec(
            program_id@,
            data@,
            rent_minimum,
            states(old(accounts)@),
        ),
{
    if data.len() == 0 {
        return Err(MappingError::InvalidInstructionData);
    }
    let opcode: u8 = data[0];
    if opcode > 1 {
        return Err(MappingError::UnknownDiscriminator);
    }
    if accounts.len() < needs_accounts(opcode) {
        return Err(MappingError::MissingAccounts);
    }
    match Instruction::parse(data) {
        Err(e) => Err(e),
        Ok(Instruction::Make { bump, amount_to_receive, amount_to_give }) => make_in(
            program_id,
            accounts,
            bump,
            amount_to_receive,
            amount_to_give,
            rent_minimum,
        ),
        Ok(Instruction::Take { shares_bump, amount_to_receive, amount_to_give }) => take_in(
            program_id,
            accounts,
            shares_bump,
            amount_to_receive,
            amount_to_give,
            rent_minimum,
        ),
    }
}

} // verus!
