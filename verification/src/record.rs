//! Records of fixed size, and the little-endian bytes of their integers.

use vstd::prelude::*;

verus! {

/// A value that carries the bump of its own address.
pub trait Bumpy {
    /// The bump, as contracts speak of it.
    spec fn bump_value(&self) -> u8;

    /// The bump.
    fn bump(&self) -> (bump: u8)
        ensures
            bump == self.bump_value(),
    ;
}

/// A record with a fixed layout: every value of the type is stored in the same
/// number of bytes.
pub trait Record: Bumpy + Sized {
    /// The number of bytes of the layout.
    spec fn size() -> nat;

    /// The alignment that a typed view of the storage needs.
    spec fn align() -> nat;

    /// The stored bytes of a value.
    spec fn bytes(&self) -> Seq<u8>;

    /// Every value fills the layout exactly.
    proof fn layout(&self)
        ensures
            self.bytes().len() == Self::size(),
            Self::align() >= 1,
    ;

    /// Two values with the same stored bytes are the same value.
    proof fn bytes_determine(&self, other: &Self)
        requires
            self.bytes() == other.bytes(),
        ensures
            *self == *other,
    ;

    /// The number of bytes of the layout.
    fn byte_len() -> (n: usize)
        ensures
            n == Self::size(),
    ;

    /// The alignment.
    fn alignment() -> (a: usize)
        ensures
            a == Self::align(),
            a >= 1,
    ;

    /// The stored bytes of the value.
    fn encode(&self) -> (out: Vec<u8>)
        ensures
            out@ == self.bytes(),
    ;

    /// The value stored in `bytes`, which must fill the layout exactly.
    fn decode(bytes: &[u8]) -> (value: Self)
        requires
            bytes@.len() == Self::size(),
        ensures
            value.bytes() == bytes@,
    ;
}

/// The eight bytes of `x`, least significant first.
#[verifier::opaque]
pub open spec fn u64_le(x: u64) -> Seq<u8> {
    seq![
        (x % 0x100) as u8,
        (x / 0x100 % 0x100) as u8,
        (x / 0x1_0000 % 0x100) as u8,
        (x / 0x100_0000 % 0x100) as u8,
        (x / 0x1_0000_0000 % 0x100) as u8,
        (x / 0x100_0000_0000 % 0x100) as u8,
        (x / 0x1_0000_0000_0000 % 0x100) as u8,
        (x / 0x100_0000_0000_0000 % 0x100) as u8,
    ]
}

/// The integer whose eight bytes, least significant first, are `b`.
#[verifier::opaque]
pub open spec fn u64_from_le(b: Seq<u8>) -> u64
    recommends
        b.len() == 8,
{
    (b[0] + b[1] * 0x100 + b[2] * 0x1_0000 + b[3] * 0x100_0000 + b[4] * 0x1_0000_0000 + b[5]
        * 0x100_0000_0000 + b[6] * 0x1_0000_0000_0000 + b[7] * 0x100_0000_0000_0000) as u64
}

/// Reading back the bytes of an integer gives the integer.
pub proof fn u64_le_round_trip(x: u64)
    ensures
        u64_le(x).len() == 8,
        u64_from_le(u64_le(x)) == x,
{
    reveal(u64_le);
    reveal(u64_from_le);
    let q1 = x / 0x100;
    let q2 = q1 / 0x100;
    let q3 = q2 / 0x100;
    let q4 = q3 / 0x100;
    let q5 = q4 / 0x100;
    let q6 = q5 / 0x100;
    let q7 = q6 / 0x100;
    assert(q2 == x / 0x1_0000);
    assert(q3 == x / 0x100_0000);
    assert(q4 == x / 0x1_0000_0000);
    assert(q5 == x / 0x100_0000_0000);
    assert(q6 == x / 0x1_0000_0000_0000);
    assert(q7 == x / 0x100_0000_0000_0000);
    assert(q7 < 0x100);
    assert(x == x % 0x100 + 0x100 * q1);
    assert(q1 == q1 % 0x100 + 0x100 * q2);
    assert(q2 == q2 % 0x100 + 0x100 * q3);
    assert(q3 == q3 % 0x100 + 0x100 * q4);
    assert(q4 == q4 % 0x100 + 0x100 * q5);
    assert(q5 == q5 % 0x100 + 0x100 * q6);
    assert(q6 == q6 % 0x100 + 0x100 * q7);
}

/// Writing out the integer read from eight bytes gives the eight bytes.
pub proof fn u64_from_le_round_trip(b: Seq<u8>)
    requires
        b.len() == 8,
    ensures
        u64_le(u64_from_le(b)) == b,
{
    reveal(u64_le);
    reveal(u64_from_le);
    let v7: int = b[7] as int;
    let v6: int = b[6] + 0x100 * v7;
    let v5: int = b[5] + 0x100 * v6;
    let v4: int = b[4] + 0x100 * v5;
    let v3: int = b[3] + 0x100 * v4;
    let v2: int = b[2] + 0x100 * v3;
    let v1: int = b[1] + 0x100 * v2;
    let v0: int = b[0] + 0x100 * v1;
    assert(v0 == u64_from_le(b));
    assert(v0 / 0x100 == v1 && v0 % 0x100 == b[0]);
    assert(v1 / 0x100 == v2 && v1 % 0x100 == b[1]);
    assert(v2 / 0x100 == v3 && v2 % 0x100 == b[2]);
    assert(v3 / 0x100 == v4 && v3 % 0x100 == b[3]);
    assert(v4 / 0x100 == v5 && v4 % 0x100 == b[4]);
    assert(v5 / 0x100 == v6 && v5 % 0x100 == b[5]);
    assert(v6 / 0x100 == v7 && v6 % 0x100 == b[6]);
    assert(v0 / 0x1_0000 == v2);
    assert(v0 / 0x100_0000 == v3);
    assert(v0 / 0x1_0000_0000 == v4);
    assert(v0 / 0x100_0000_0000 == v5);
    assert(v0 / 0x1_0000_0000_0000 == v6);
    assert(v0 / 0x100_0000_0000_0000 == v7);
    assert(u64_le(u64_from_le(b)) =~= b);
}

/// Two integers with the same eight bytes are the same integer.
pub proof fn u64_le_determines(x: u64, y: u64)
    requires
        u64_le(x) == u64_le(y),
    ensures
        x == y,
{
    u64_le_round_trip(x);
    u64_le_round_trip(y);
}

/// Where two sequences are each made of two parts, are equal, and their first
/// parts are equally long, the parts are equal.
pub proof fn parts_determine(a: Seq<u8>, b: Seq<u8>, c: Seq<u8>, d: Seq<u8>)
    requires
        a + b == c + d,
        a.len() == c.len(),
    ensures
        a == c,
        b == d,
{
    assert(a =~= (a + b).subrange(0, a.len() as int));
    assert(c =~= (c + d).subrange(0, c.len() as int));
    assert(b =~= (a + b).subrange(a.len() as int, (a + b).len() as int));
    assert(d =~= (c + d).subrange(c.len() as int, (c + d).len() as int));
}

/// Appends the eight bytes of `x` to `out`.
pub fn push_u64_le(out: &mut Vec<u8>, x: u64)
    ensures
        final(out)@ == old(out)@ + u64_le(x),
{
    let ghost before = out@;
    proof {
        reveal(u64_le);
    }
    out.push((x % 0x100) as u8);
    out.push((x / 0x100 % 0x100) as u8);
    out.push((x / 0x1_0000 % 0x100) as u8);
    out.push((x / 0x100_0000 % 0x100) as u8);
    out.push((x / 0x1_0000_0000 % 0x100) as u8);
    out.push((x / 0x100_0000_0000 % 0x100) as u8);
    out.push((x / 0x1_0000_0000_0000 % 0x100) as u8);
    out.push((x / 0x100_0000_0000_0000 % 0x100) as u8);
    assert(out@ =~= before + u64_le(x));
}

/// Appends the 32 bytes of `a` to `out`.
pub fn push_address(out: &mut Vec<u8>, a: &[u8; 32])
    ensures
        final(out)@ == old(out)@ + a@,
{
    let ghost before = out@;
    let mut i: usize = 0;
    while i < 32
        invariant
            i <= 32,
            out@ == before + a@.subrange(0, i as int),
        decreases 32 - i,
    {
        out.push(a[i]);
        assert(out@ =~= before + a@.subrange(0, i + 1));
        i += 1;
    }
    assert(a@.subrange(0, 32) =~= a@);
}

/// The integer stored in the eight bytes of `bytes` that start at `at`.
pub fn read_u64_le(bytes: &[u8], at: usize) -> (x: u64)
    requires
        at + 8 <= bytes@.len(),
    ensures
        x == u64_from_le(bytes@.subrange(at as int, at + 8)),
{
    proof {
        reveal(u64_from_le);
    }
    let b0: u64 = bytes[at] as u64;
    let b1: u64 = bytes[at + 1] as u64;
    let b2: u64 = bytes[at + 2] as u64;
    let b3: u64 = bytes[at + 3] as u64;
    let b4: u64 = bytes[at + 4] as u64;
    let b5: u64 = bytes[at + 5] as u64;
    let b6: u64 = bytes[at + 6] as u64;
    let b7: u64 = bytes[at + 7] as u64;
    b0 + b1 * 0x100 + b2 * 0x1_0000 + b3 * 0x100_0000 + b4 * 0x1_0000_0000 + b5
        * 0x100_0000_0000 + b6 * 0x1_0000_0000_0000 + b7 * 0x100_0000_0000_0000
}

/// The address stored in the 32 bytes of `bytes` that start at `at`.
pub fn read_address(bytes: &[u8], at: usize) -> (a: [u8; 32])
    requires
        at + 32 <= bytes@.len(),
    ensures
        a@ == bytes@.subrange(at as int, at + 32),
{
    let n: usize = bytes.len();
    let mut a: [u8; 32] = [0u8; 32];
    let mut i: usize = 0;
    while i < 32
        invariant
            i <= 32,
            at + 32 <= n,
            n == bytes@.len(),
            forall|j: int| 0 <= j < i ==> a@[j] == bytes@[at + j],
        decreases 32 - i,
    {
        a[i] = bytes[at + i];
        i += 1;
    }
    assert(a@ =~= bytes@.subrange(at as int, at + 32));
    a
}

} // verus!
