//! The offer of an escrow, and the operation that creates it.

use vstd::prelude::*;
use crate::account::{Account, AccountState};
use crate::address::{derived_address, Address};
use crate::error::MappingError;
use crate::mapping::{create_spec, Mapping, Stored};
use crate::record::{push_address, push_u64_le, read_address, read_u64_le, u64_le};
use crate::record::{parts_determine, u64_from_le_round_trip, u64_le_determines};
use crate::record::{u64_le_round_trip, Bumpy, Record};

verus! {

/// What a maker offers: the amount wanted and the amount given in return.
#[derive(Clone, Copy, Debug, PartialEq, Eq)]
pub struct EscrowRecord {
    pub maker: Address,
    pub amount_to_receive: u64,
    pub amount_to_give: u64,
    pub bump: u8,
}

/// The namespace of the offers, the ASCII bytes of "escrow", as contracts
/// speak of it.
pub open spec fn escrow_namespace_spec() -> Seq<u8> {
    seq![0x65u8, 0x73u8, 0x63u8, 0x72u8, 0x6fu8, 0x77u8]
}

/// The namespace of the offers.
pub fn escrow_namespace() -> (name: [u8; 6])
    ensures
        name@ == escrow_namespace_spec(),
{
    let name: [u8; 6] = [0x65u8, 0x73u8, 0x63u8, 0x72u8, 0x6fu8, 0x77u8];
    assert(name@ =~= escrow_namespace_spec());
    name
}

/// The 49 stored bytes of an offer: the maker, the two amounts with the least
/// significant byte first, and the bump.
pub open spec fn escrow_bytes(
    maker: Seq<u8>,
    amount_to_receive: u64,
    amount_to_give: u64,
    bump: u8,
) -> Seq<u8> {
    maker + u64_le(amount_to_receive) + u64_le(amount_to_give) + seq![bump]
}

impl Bumpy for EscrowRecord {
    open spec fn bump_value(&self) -> u8 {
        self.bump
    }

    fn bump(&self) -> (bump: u8) {
        self.bump
    }
}

impl Record for EscrowRecord {
    open spec fn size() -> nat {
        49
    }

    open spec fn align() -> nat {
        1
    }

    open spec fn bytes(&self) -> Seq<u8> {
        escrow_bytes(self.maker@, self.amount_to_receive, self.amount_to_give, self.bump)
    }

    proof fn layout(&self) {
        u64_le_round_trip(self.amount_to_receive);
        u64_le_round_trip(self.amount_to_give);
    }

    proof fn bytes_determine(&self, other: &Self) {
        let m1 = self.maker@;
        let m2 = other.maker@;
        let r1 = u64_le(self.amount_to_receive);
        let r2 = u64_le(other.amount_to_receive);
        let g1 = u64_le(self.amount_to_give);
        let g2 = u64_le(other.amount_to_give);
        let t1 = seq![self.bump];
        let t2 = seq![other.bump];
        u64_le_round_trip(self.amount_to_receive);
        u64_le_round_trip(other.amount_to_receive);
        u64_le_round_trip(self.amount_to_give);
        u64_le_round_trip(other.amount_to_give);
        parts_determine(m1 + r1 + g1, t1, m2 + r2 + g2, t2);
        parts_determine(m1 + r1, g1, m2 + r2, g2);
        parts_determine(m1, r1, m2, r2);
        u64_le_determines(self.amount_to_receive, other.amount_to_receive);
        u64_le_determines(self.amount_to_give, other.amount_to_give);
        assert(self.maker =~= other.maker);
        assert(t1[0] == t2[0]);
    }

    fn byte_len() -> (n: usize) {
        49
    }

    fn alignment() -> (a: usize) {
        1
    }

    fn encode(&self) -> (out: Vec<u8>) {
        let mut out: Vec<u8> = Vec::new();
        push_address(&mut out, &self.maker);
        push_u64_le(&mut out, self.amount_to_receive);
        push_u64_le(&mut out, self.amount_to_give);
        out.push(self.bump);
        assert(out@ =~= self.bytes());
        out
    }

    fn decode(bytes: &[u8]) -> (value: Self) {
        let value = EscrowRecord {
            maker: read_address(bytes, 0),
            amount_to_receive: read_u64_le(bytes, 32),
            amount_to_give: read_u64_le(bytes, 40),
            bump: bytes[48],
        };
        proof {
            u64_from_le_round_trip(bytes@.subrange(32, 40));
            u64_from_le_round_trip(bytes@.subrange(40, 48));
            assert(value.bytes() =~= bytes@);
        }
        value
    }
}

/// What `make_at` does: the creation of the offer of the maker and `bump` in
/// the account `escrow`, where the offer's address is `expected`, paid by the
/// maker. An account that the program owns already is refused as an illegal
/// owner.
pub open spec fn make_at_spec(
    program_id: Seq<u8>,
    expected: Seq<u8>,
    bump: u8,
    amount_to_receive: u64,
    amount_to_give: u64,
    rent_minimum: u64,
    escrow: AccountState,
    maker: AccountState,
) -> Stored {
    let created = create_spec(
        program_id,
        expected,
        escrow_bytes(maker.address, amount_to_receive, amount_to_give, bump),
        1,
        rent_minimum,
        escrow,
        maker,
    );
    if created.result == Err::<(), MappingError>(MappingError::AlreadyInitialized) {
        Stored { result: Err(MappingError::IllegalOwner), ..created }
    } else {
        created
    }
}

/// What `make` does: `make_at` with the address derived from the namespace of
/// the offers, the maker's address and `bump`.
pub open spec fn make_spec(
    program_id: Seq<u8>,
    bump: u8,
    amount_to_receive: u64,
    amount_to_give: u64,
    rent_minimum: u64,
    escrow: AccountState,
    maker: AccountState,
) -> Stored {
    make_at_spec(
        program_id,
        derived_address(escrow_namespace_spec(), maker.address, bump, program_id),
        bump,
        amount_to_receive,
        amount_to_give,
        rent_minimum,
        escrow,
        maker,
    )
}

/// Creates the offer of `maker` in the account `escrow`, which must sit at
/// `expected`, the offer's address, and must not be owned by the program yet.
/// The maker pays `rent_minimum` for the storage. Whatever is refused leaves
/// both accounts as they were.
pub fn make_at(
    program_id: &Address,
    expected: &Address,
    maker: &mut Account,
    escrow: &mut Account,
    bump: u8,
    amount_to_receive: u64,
    amount_to_give: u64,
    rent_minimum: u64,
) -> (result: Result<(), MappingError>)
    ensures
        (Stored { result, account: final(escrow)@, payer: final(maker)@ }) == make_at_spec(
            program_id@,
            expected@,
            bump,
            amount_to_receive,
            amount_to_give,
            rent_minimum,
            old(escrow)@,
            old(maker)@,
        ),
{
    let name = escrow_namespace();
    let offers = Mapping::new(program_id, name.as_slice());
    let offer = EscrowRecord { maker: maker.address, amount_to_receive, amount_to_give, bump };
    match offers.create_at(expected, offer.encode(), 1, escrow, maker, rent_minimum) {
        Err(MappingError::AlreadyInitialized) => Err(MappingError::IllegalOwner),
        other => other,
    }
}

/// Creates the offer of `maker` in the account `escrow`. The account must sit
/// at the address derived from the namespace of the offers, the maker's
/// address and `bump`, and must not be owned by the program yet: an offer is
/// written once, and a second one is refused as an illegal owner. The maker
/// pays `rent_minimum` for the storage. Whatever is refused leaves both
/// accounts as they were.
pub fn make(
    program_id: &Address,
    maker: &mut Account,
    escrow: &mut Account,
    bump: u8,
    amount_to_receive: u64,
    amount_to_give: u64,
    rent_minimum: u64,
) -> (result: Result<(), MappingError>)
    ensures
        (Stored { result, account: final(escrow)@, payer: final(maker)@ }) == make_spec(
            program_id@,
            bump,
            amount_to_receive,
            amount_to_give,
            rent_minimum,
            old(escrow)@,
            old(maker)@,
        ),
{
    let name = escrow_namespace();
    let key: Address = maker.address;
    let expected = crate::address::derive(name.as_slice(), &key, bump, program_id);
    make_at(
        program_id,
        &expected,
        maker,
        escrow,
        bump,
        amount_to_receive,
        amount_to_give,
        rent_minimum,
    )
}

} // verus!
