//! What holds of the record store over several operations.

use vstd::prelude::*;
use crate::account::AccountState;
use crate::address::derived_address;
use crate::error::MappingError;
use crate::escrow::{escrow_bytes, make_spec};
use crate::mapping::{create_spec, get_spec, set_spec, update_spec};
use crate::shares::{share_bytes, take_spec};

verus! {

/// The derivation depends on nothing but the bytes of the namespace, the bytes
/// of the key, the bump and the bytes of the program: where these agree, the
/// derived addresses agree.
pub proof fn equal_seeds_derive_equal_addresses(
    namespace: Seq<u8>,
    key: Seq<u8>,
    bump: u8,
    program_id: Seq<u8>,
    other_namespace: Seq<u8>,
    other_key: Seq<u8>,
    other_bump: u8,
    other_program_id: Seq<u8>,
)
    requires
        namespace.len() == other_namespace.len(),
        forall|i: int| 0 <= i < namespace.len() ==> namespace[i] == other_namespace[i],
        key.len() == other_key.len(),
        forall|i: int| 0 <= i < key.len() ==> key[i] == other_key[i],
        bump == other_bump,
        program_id.len() == other_program_id.len(),
        forall|i: int| 0 <= i < program_id.len() ==> program_id[i] == other_program_id[i],
    ensures
        derived_address(namespace, key, bump, program_id) == derived_address(
            other_namespace,
            other_key,
            other_bump,
            other_program_id,
        ),
{
    assert(namespace =~= other_namespace);
    assert(key =~= other_key);
    assert(program_id =~= other_program_id);
}

/// A record that was created under one bump is not reached under a bump that
/// derives another address: with the address of `other_bump`, creating,
/// overwriting, setting and reading are all refused for the mismatch of the
/// address, and nothing changes.
pub proof fn other_bump_is_refused(
    program_id: Seq<u8>,
    namespace: Seq<u8>,
    key: Seq<u8>,
    bump: u8,
    other_bump: u8,
    bytes: Seq<u8>,
    align: nat,
    rent_minimum: u64,
    account: AccountState,
    payer: AccountState,
)
    requires
        account.address == derived_address(namespace, key, bump, program_id),
        derived_address(namespace, key, other_bump, program_id) != derived_address(
            namespace,
            key,
            bump,
            program_id,
        ),
    ensures
        ({
            let other = derived_address(namespace, key, other_bump, program_id);
            let created = create_spec(program_id, other, bytes, align, rent_minimum, account, payer);
            let updated = update_spec(program_id, other, bytes, align, account);
            let stored = set_spec(program_id, other, bytes, align, rent_minimum, account, payer);
            &&& created.result == Err::<(), MappingError>(MappingError::AddressMismatch)
            &&& created.account == account
            &&& created.payer == payer
            &&& updated.result == Err::<(), MappingError>(MappingError::AddressMismatch)
            &&& updated.account == account
            &&& stored.result == Err::<(), MappingError>(MappingError::AddressMismatch)
            &&& stored.account == account
            &&& stored.payer == payer
            &&& get_spec(program_id, other, bytes.len(), align, account) == Err::<
                Seq<u8>,
                MappingError,
            >(MappingError::AddressMismatch)
        }),
{
}

/// After a record was created, overwriting it with another value of the same
/// layout succeeds, and reading gives back exactly the bytes written last.
pub proof fn update_after_create_reads_back(
    program_id: Seq<u8>,
    expected: Seq<u8>,
    first: Seq<u8>,
    second: Seq<u8>,
    align: nat,
    rent_minimum: u64,
    account: AccountState,
    payer: AccountState,
)
    requires
        first.len() == second.len(),
        create_spec(program_id, expected, first, align, rent_minimum, account, payer).result.is_ok(),
    ensures
        ({
            let created = create_spec(program_id, expected, first, align, rent_minimum, account, payer);
            let updated = update_spec(program_id, expected, second, align, created.account);
            &&& get_spec(program_id, expected, first.len(), align, created.account) == Ok::<
                Seq<u8>,
                MappingError,
            >(first)
            &&& updated.result.is_ok()
            &&& updated.account.data == second
            &&& get_spec(program_id, expected, second.len(), align, updated.account) == Ok::<
                Seq<u8>,
                MappingError,
            >(second)
        }),
{
}

/// After a record was created, setting it to another value of the same layout
/// succeeds without a payment, and reading gives back exactly the bytes
/// written last.
pub proof fn set_after_create_reads_back(
    program_id: Seq<u8>,
    expected: Seq<u8>,
    first: Seq<u8>,
    second: Seq<u8>,
    align: nat,
    rent_minimum: u64,
    account: AccountState,
    payer: AccountState,
)
    requires
        first.len() == second.len(),
        create_spec(program_id, expected, first, align, rent_minimum, account, payer).result.is_ok(),
    ensures
        ({
            let created = create_spec(program_id, expected, first, align, rent_minimum, account, payer);
            let stored = set_spec(
                program_id,
                expected,
                second,
                align,
                rent_minimum,
                created.account,
                created.payer,
            );
            &&& stored.result.is_ok()
            &&& stored.account.data == second
            &&& stored.payer == created.payer
            &&& get_spec(program_id, expected, second.len(), align, stored.account) == Ok::<
                Seq<u8>,
                MappingError,
            >(second)
        }),
{
}

/// Creating a record a second time is refused because it is there already,
/// whatever the second value and whoever pays, and the stored bytes stay
/// those of the first.
pub proof fn second_create_is_refused(
    program_id: Seq<u8>,
    expected: Seq<u8>,
    first: Seq<u8>,
    second: Seq<u8>,
    align: nat,
    rent_minimum: u64,
    account: AccountState,
    payer: AccountState,
)
    requires
        create_spec(program_id, expected, first, align, rent_minimum, account, payer).result.is_ok(),
    ensures
        ({
            let created = create_spec(program_id, expected, first, align, rent_minimum, account, payer);
            let again = create_spec(
                program_id,
                expected,
                second,
                align,
                rent_minimum,
                created.account,
                created.payer,
            );
            &&& created.account.data == first
            &&& again.result == Err::<(), MappingError>(MappingError::AlreadyInitialized)
            &&& again.account == created.account
            &&& again.payer == created.payer
        }),
{
}

/// Setting a record twice to the same value stores the same bytes as setting
/// it once: the second call succeeds and leaves both accounts as the first
/// left them.
pub proof fn set_twice_is_set_once(
    program_id: Seq<u8>,
    expected: Seq<u8>,
    bytes: Seq<u8>,
    align: nat,
    rent_minimum: u64,
    account: AccountState,
    payer: AccountState,
)
    requires
        set_spec(program_id, expected, bytes, align, rent_minimum, account, payer).result.is_ok(),
    ensures
        ({
            let once = set_spec(program_id, expected, bytes, align, rent_minimum, account, payer);
            let twice = set_spec(
                program_id,
                expected,
                bytes,
                align,
                rent_minimum,
                once.account,
                once.payer,
            );
            &&& once.account.data == bytes
            &&& twice.result.is_ok()
            &&& twice.account == once.account
            &&& twice.payer == once.payer
        }),
{
}

/// A set never fails because the record is there already: where the account
/// sits at the record's address, is owned by the program, holds as many bytes
/// as the record and is aligned for it, the set succeeds.
pub proof fn set_accepts_an_existing_record(
    program_id: Seq<u8>,
    expected: Seq<u8>,
    bytes: Seq<u8>,
    align: nat,
    rent_minimum: u64,
    account: AccountState,
    payer: AccountState,
)
    requires
        get_spec(program_id, expected, bytes.len(), align, account).is_ok(),
    ensures
        set_spec(program_id, expected, bytes, align, rent_minimum, account, payer).result.is_ok(),
        set_spec(program_id, expected, bytes, align, rent_minimum, account, payer).account.data
            == bytes,
{
}

/// An offer that was made is stored as it was given: the account of the offer
/// belongs to the program and holds the maker, the two amounts and the bump,
/// and the maker has paid for the storage. A second offer under the same
/// maker and bump is refused and leaves the first as it is.
pub proof fn made_offer_is_stored_once(
    program_id: Seq<u8>,
    bump: u8,
    amount_to_receive: u64,
    amount_to_give: u64,
    other_to_receive: u64,
    other_to_give: u64,
    rent_minimum: u64,
    escrow: AccountState,
    maker: AccountState,
)
    requires
        make_spec(
            program_id,
            bump,
            amount_to_receive,
            amount_to_give,
            rent_minimum,
            escrow,
            maker,
        ).result.is_ok(),
    ensures
        ({
            let made = make_spec(
                program_id,
                bump,
                amount_to_receive,
                amount_to_give,
                rent_minimum,
                escrow,
                maker,
            );
            let again = make_spec(
                program_id,
                bump,
                other_to_receive,
                other_to_give,
                rent_minimum,
                made.account,
                made.payer,
            );
            &&& made.account.owner == program_id
            &&& made.account.data == escrow_bytes(
                maker.address,
                amount_to_receive,
                amount_to_give,
                bump,
            )
            &&& made.payer.lamports == maker.lamports - rent_minimum
            &&& again.result == Err::<(), MappingError>(MappingError::IllegalOwner)
            &&& again.account == made.account
            &&& again.payer == made.payer
        }),
{
}

/// A settlement that succeeds moves exactly the amount to receive from the
/// taker to the maker, charges the taker the storage only where the account of
/// the settlement was new, and stores the maker, the taker, the amount given
/// and the bump.
pub proof fn settlement_moves_and_records(
    program_id: Seq<u8>,
    shares_bump: u8,
    amount_to_receive: u64,
    amount_to_give: u64,
    rent_minimum: u64,
    taker: AccountState,
    maker: AccountState,
    shares: AccountState,
)
    requires
        take_spec(
            program_id,
            shares_bump,
            amount_to_receive,
            amount_to_give,
            rent_minimum,
            taker,
            maker,
            shares,
        ).result.is_ok(),
    ensures
        ({
            let taken = take_spec(
                program_id,
                shares_bump,
                amount_to_receive,
                amount_to_give,
                rent_minimum,
                taker,
                maker,
                shares,
            );
            let storage: int = if shares.owner == program_id {
                0
            } else {
                rent_minimum as int
            };
            &&& taken.maker.lamports == maker.lamports + amount_to_receive
            &&& taken.taker.lamports == taker.lamports - amount_to_receive - storage
            &&& taken.shares.lamports == shares.lamports + storage
            &&& taken.shares.owner == program_id
            &&& taken.shares.data == share_bytes(
                maker.address,
                taker.address,
                amount_to_give,
                shares_bump,
            )
        }),
{
}

/// A settlement that is refused leaves the three accounts as they were,
/// whichever step refused it.
pub proof fn refused_settlement_changes_nothing(
    program_id: Seq<u8>,
    shares_bump: u8,
    amount_to_receive: u64,
    amount_to_give: u64,
    rent_minimum: u64,
    taker: AccountState,
    maker: AccountState,
    shares: AccountState,
)
    requires
        take_spec(
            program_id,
            shares_bump,
            amount_to_receive,
            amount_to_give,
            rent_minimum,
            taker,
            maker,
            shares,
        ).result.is_err(),
    ensures
        ({
            let taken = take_spec(
                program_id,
                shares_bump,
                amount_to_receive,
                amount_to_give,
                rent_minimum,
                taker,
                maker,
                shares,
            );
            &&& taken.taker == taker
            &&& taken.maker == maker
            &&& taken.shares == shares
        }),
{
}

/// A second settlement under the same taker and bump, which the taker can
/// pay and the maker can receive, succeeds and replaces the amount of the
/// first: the stored maker, taker and bump stay, the stored amount is the one
/// given last, and nothing more is paid for the storage.
pub proof fn later_settlement_replaces_the_amount(
    program_id: Seq<u8>,
    shares_bump: u8,
    first_to_receive: u64,
    first_to_give: u64,
    second_to_receive: u64,
    second_to_give: u64,
    rent_minimum: u64,
    taker: AccountState,
    maker: AccountState,
    shares: AccountState,
)
    requires
        take_spec(
            program_id,
            shares_bump,
            first_to_receive,
            first_to_give,
            rent_minimum,
            taker,
            maker,
            shares,
        ).result.is_ok(),
        ({
            let first = take_spec(
                program_id,
                shares_bump,
                first_to_receive,
                first_to_give,
                rent_minimum,
                taker,
                maker,
                shares,
            );
            first.taker.lamports >= second_to_receive && first.maker.lamports + second_to_receive
                <= u64::MAX
        }),
    ensures
        ({
            let first = take_spec(
                program_id,
                shares_bump,
                first_to_receive,
                first_to_give,
                rent_minimum,
                taker,
                maker,
                shares,
            );
            let second = take_spec(
                program_id,
                shares_bump,
                second_to_receive,
                second_to_give,
                rent_minimum,
                first.taker,
                first.maker,
                first.shares,
            );
            &&& second.result.is_ok()
            &&& second.shares.data == share_bytes(
                maker.address,
                taker.address,
                second_to_give,
                shares_bump,
            )
            &&& second.shares.lamports == first.shares.lamports
            &&& second.shares.owner == first.shares.owner
            &&& second.taker.lamports == first.taker.lamports - second_to_receive
            &&& second.maker.lamports == first.maker.lamports + second_to_receive
        }),
{
    crate::record::u64_le_round_trip(first_to_give);
    crate::record::u64_le_round_trip(second_to_give);
}

} // verus!
