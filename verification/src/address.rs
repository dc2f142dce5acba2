//! Addresses, and the derivation of a record's address.

use vstd::prelude::*;

verus! {

/// The identity of an account or of a program: 32 bytes.
pub type Address = [u8; 32];

/// The address that the derivation gives for a namespace, a key, a bump and
/// the owning program: the SHA-256 digest of the four, in that order, followed
/// by the marker of derived addresses.
pub uninterp spec fn derived_address(
    namespace: Seq<u8>,
    key: Seq<u8>,
    bump: u8,
    owner: Seq<u8>,
) -> Seq<u8>;

/// Calls `pinocchio_pubkey::derive_address_const` with the seeds `namespace`,
/// `key` and the one byte `bump`, no further bump, and `owner` as the program.
/// The contract claims that the digest it returns depends on these four values
/// alone, and gives that digest its name.
#[verifier::external_body]
fn digest_of_seeds(namespace: &[u8], key: &Address, bump: u8, owner: &Address) -> (out: Address)
    ensures
        out@ == derived_address(namespace@, key@, bump, owner@),
{
    pinocchio_pubkey::derive_address_const(&[namespace, key, &[bump]], None, owner)
}

/// The address of the record that `namespace`, `key` and `bump` name under the
/// program `owner`. Equal inputs give equal addresses, whatever was called
/// before.
pub fn derive(namespace: &[u8], key: &Address, bump: u8, owner: &Address) -> (out: Address)
    ensures
        out@ == derived_address(namespace@, key@, bump, owner@),
{
    digest_of_seeds(namespace, key, bump, owner)
}

/// Whether two addresses hold the same bytes.
pub fn same_address(a: &Address, b: &Address) -> (same: bool)
    ensures
        same == (a@ == b@),
{
    let mut i: usize = 0;
    while i < 32
        invariant
            i <= 32,
            forall|j: int| 0 <= j < i ==> a@[j] == b@[j],
        decreases 32 - i,
    {
        if a[i] != b[i] {
            return false;
        }
        i += 1;
    }
    assert(a@ =~= b@);
    true
}

} // verus!
