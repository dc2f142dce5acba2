//! The record of a settlement, and the operation that settles.

use vstd::prelude::*;
use crate::account::{transfer, transfer_spec, Account, AccountState};
use crate::address::{derived_address, Address};
use crate::error::MappingError;
use crate::mapping::{set_spec, Mapping};
use crate::record::{push_address, push_u64_le, read_address, read_u64_le, u64_le};
use crate::record::{parts_determine, u64_from_le_round_trip, u64_le_determines};
use crate::record::{u64_le_round_trip, Bumpy, Record};

verus! {

/// What a taker got from a maker.
#[derive(Clone, Copy, Debug, PartialEq, Eq)]
pub struct ShareRecord {
    pub maker: Address,
    pub taker: Address,
    pub amount: u64,
    pub bump: u8,
}

/// The namespace of the settlements, the ASCII bytes of "shares", as contracts
/// speak of it.
pub open spec fn shares_namespace_spec() -> Seq<u8> {
    seq![0x73u8, 0x68u8, 0x61u8, 0x72u8, 0x65u8, 0x73u8]
}

/// The namespace of the settlements.
pub fn shares_namespace() -> (name: [u8; 6])
    ensures
        name@ == shares_namespace_spec(),
{
    let name: [u8; 6] = [0x73u8, 0x68u8, 0x61u8, 0x72u8, 0x65u8, 0x73u8];
    assert(name@ =~= shares_namespace_spec());
    name
}

/// The 73 stored bytes of a settlement: the maker, the taker, the amount with
/// the least significant byte first, and the bump.
pub open spec fn share_bytes(maker: Seq<u8>, taker: Seq<u8>, amount: u64, bump: u8) -> Seq<u8> {
    maker + taker + u64_le(amount) + seq![bump]
}

impl Bumpy for ShareRecord {
    open spec fn bump_value(&self) -> u8 {
        self.bump
    }

    fn bump(&self) -> (bump: u8) {
        self.bump
    }
}

impl Record for ShareRecord {
    open spec fn size() -> nat {
        73
    }

    open spec fn align() -> nat {
        1
    }

    open spec fn bytes(&self) -> Seq<u8> {
        share_bytes(self.maker@, self.taker@, self.amount, self.bump)
    }

    proof fn layout(&self) {
        u64_le_round_trip(self.amount);
    }

    proof fn bytes_determine(&self, other: &Self) {
        let m1 = self.maker@;
        let m2 = other.maker@;
        let k1 = self.taker@;
        let k2 = other.taker@;
        let a1 = u64_le(self.amount);
        let a2 = u64_le(other.amount);
        let t1 = seq![self.bump];
        let t2 = seq![other.bump];
        u64_le_round_trip(self.amount);
        u64_le_round_trip(other.amount);
        parts_determine(m1 + k1 + a1, t1, m2 + k2 + a2, t2);
        parts_determine(m1 + k1, a1, m2 + k2, a2);
        parts_determine(m1, k1, m2, k2);
        u64_le_determines(self.amount, other.amount);
        assert(self.maker =~= other.maker);
        assert(self.taker =~= other.taker);
        assert(t1[0] == t2[0]);
    }

    fn byte_len() -> (n: usize) {
        73
    }

    fn alignment() -> (a: usize) {
        1
    }

    fn encode(&self) -> (out: Vec<u8>) {
        let mut out: Vec<u8> = Vec::new();
        push_address(&mut out, &self.maker);
        push_address(&mut out, &self.taker);
        push_u64_le(&mut out, self.amount);
        out.push(self.bump);
        assert(out@ =~= self.bytes());
        out
    }

    fn decode(bytes: &[u8]) -> (value: Self) {
        let value = ShareRecord {
            maker: read_address(bytes, 0),
            taker: read_address(bytes, 32),
            amount: read_u64_le(bytes, 64),
            bump: bytes[72],
        };
        proof {
            u64_from_le_round_trip(bytes@.subrange(64, 72));
            assert(value.bytes() =~= bytes@);
        }
        value
    }
}

/// How a settlement ended, and the three accounts after it.
pub struct Taken {
    pub result: Result<(), MappingError>,
    pub taker: AccountState,
    pub maker: AccountState,
    pub shares: AccountState,
}

/// What `take_at` does, where the settlement's address is `expected`. First
/// `amount_to_receive` moves from the taker to the maker. Then the settlement
/// of the taker and `shares_bump` is created or overwritten in the account
/// `shares`, paid by the taker out of what the transfer left. Where either
/// step is refused, the three accounts are as they were before the first.
pub open spec fn take_at_spec(
    program_id: Seq<u8>,
    expected: Seq<u8>,
    shares_bump: u8,
    amount_to_receive: u64,
    amount_to_give: u64,
    rent_minimum: u64,
    taker: AccountState,
    maker: AccountState,
    shares: AccountState,
) -> Taken {
    let paid = transfer_spec(taker, maker, amount_to_receive);
    let stored = set_spec(
        program_id,
        expected,
        share_bytes(maker.address, taker.address, amount_to_give, shares_bump),
        1,
        rent_minimum,
        shares,
        paid.from,
    );
    if paid.result.is_err() {
        Taken { result: paid.result, taker, maker, shares }
    } else if stored.result.is_err() {
        Taken { result: stored.result, taker, maker, shares }
    } else {
        Taken { result: Ok(()), taker: stored.payer, maker: paid.to, shares: stored.account }
    }
}

/// What `take` does: `take_at` with the address derived from the namespace of
/// the settlements, the taker's address and `shares_bump`.
pub open spec fn take_spec(
    program_id: Seq<u8>,
    shares_bump: u8,
    amount_to_receive: u64,
    amount_to_give: u64,
    rent_minimum: u64,
    taker: AccountState,
    maker: AccountState,
    shares: AccountState,
) -> Taken {
    take_at_spec(
        program_id,
        derived_address(shares_namespace_spec(), taker.address, shares_bump, program_id),
        shares_bump,
        amount_to_receive,
        amount_to_give,
        rent_minimum,
        taker,
        maker,
        shares,
    )
}

/// Settles: moves `amount_to_receive` from `taker` to `maker`, then records
/// `amount_to_give` in the account `shares`, which must sit at `expected`, the
/// settlement's address. Whatever is refused leaves the three accounts as
/// they were.
pub fn take_at(
    program_id: &Address,
    expected: &Address,
    taker: &mut Account,
    maker: &mut Account,
    shares: &mut Account,
    shares_bump: u8,
    amount_to_receive: u64,
    amount_to_give: u64,
    rent_minimum: u64,
) -> (result: Result<(), MappingError>)
    ensures
        (Taken {
            result,
            taker: final(taker)@,
            maker: final(maker)@,
            shares: final(shares)@,
        }) == take_at_spec(
            program_id@,
            expected@,
            shares_bump,
            amount_to_receive,
            amount_to_give,
            rent_minimum,
            old(taker)@,
            old(maker)@,
            old(shares)@,
        ),
{
    let taker_before: u64 = taker.lamports;
    let maker_before: u64 = maker.lamports;
    match transfer(taker, maker, amount_to_receive) {
        Err(e) => {
            return Err(e);
        },
        Ok(()) => {},
    }
    let name = shares_namespace();
    let settlements = Mapping::new(program_id, name.as_slice());
    let share = ShareRecord {
        maker: maker.address,
        taker: taker.address,
        amount: amount_to_give,
        bump: shares_bump,
    };
    match settlements.set_at(expected, share.encode(), 1, shares, taker, rent_minimum) {
        Err(e) => {
            taker.lamports = taker_before;
            maker.lamports = maker_before;
            Err(e)
        },
        Ok(()) => Ok(()),
    }
}

/// Settles: moves `amount_to_receive` from `taker` to `maker`, then records
/// `amount_to_give` in the account `shares`, which must sit at the address
/// derived from the namespace of the settlements, the taker's address and
/// `shares_bump`. A settlement under the same taker and bump replaces the
/// one before it. The amounts are taken as the taker gives them: no offer is
/// read. Whatever is refused leaves the three accounts as they were.
pub fn take(
    program_id: &Address,
    taker: &mut Account,
    maker: &mut Account,
    shares: &mut Account,
    shares_bump: u8,
    amount_to_receive: u64,
    amount_to_give: u64,
    rent_minimum: u64,
) -> (result: Result<(), MappingError>)
    ensures
        (Taken {
            result,
            taker: final(taker)@,
            maker: final(maker)@,
            shares: final(shares)@,
        }) == take_spec(
            program_id@,
            shares_bump,
            amount_to_receive,
            amount_to_give,
            rent_minimum,
            old(taker)@,
            old(maker)@,
            old(shares)@,
        ),
{
    let name = shares_namespace();
    let key: Address = taker.address;
    let expected = crate::address::derive(name.as_slice(), &key, shares_bump, program_id);
    take_at(
        program_id,
        &expected,
        taker,
        maker,
        shares,
        shares_bump,
        amount_to_receive,
        amount_to_give,
        rent_minimum,
    )
}

} // verus!
