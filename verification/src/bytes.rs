//! Little-endian integer encodings and fixed-width reads from byte buffers.

use vstd::prelude::*;

verus! {

/// The `n` low-order bytes of `x`, least significant first.
pub open spec fn le_bytes(x: nat, n: nat) -> Seq<u8>
    decreases n,
{
    if n == 0 {
        Seq::empty()
    } else {
        seq![(x % 256) as u8] + le_bytes(x / 256, (n - 1) as nat)
    }
}

/// The number whose base-256 digits, least significant first, are `s`.
pub open spec fn le_value(s: Seq<u8>) -> nat
    decreases s.len(),
{
    if s.len() == 0 {
        0
    } else {
        s[0] as nat + 256 * le_value(s.skip(1))
    }
}

/// 256 to the power `n`.
pub open spec fn pow256(n: nat) -> nat
    decreases n,
{
    if n == 0 {
        1
    } else {
        256 * pow256((n - 1) as nat)
    }
}

/// An encoding of `n` bytes is `n` bytes long.
pub proof fn lemma_le_bytes_len(x: nat, n: nat)
    ensures
        le_bytes(x, n).len() == n,
    decreases n,
{
    if n > 0 {
        lemma_le_bytes_len(x / 256, (n - 1) as nat);
    }
}

/// A sequence of `n` digits denotes a number below `256^n`.
pub proof fn lemma_le_value_bound(s: Seq<u8>)
    ensures
        le_value(s) < pow256(s.len()),
    decreases s.len(),
{
    if s.len() > 0 {
        lemma_le_value_bound(s.skip(1));
    }
}

/// Decoding undoes encoding for every number that fits in `n` bytes.
pub proof fn lemma_le_value_of_bytes(x: nat, n: nat)
    requires
        x < pow256(n),
    ensures
        le_value(le_bytes(x, n)) == x,
    decreases n,
{
    if n > 0 {
        let rest = le_bytes(x / 256, (n - 1) as nat);
        let whole = le_bytes(x, n);
        lemma_le_bytes_len(x / 256, (n - 1) as nat);
        assert(whole.skip(1) =~= rest);
        lemma_le_value_of_bytes(x / 256, (n - 1) as nat);
    }
}

/// Encoding undoes decoding: the digits of a number are the digits it was
/// read from.
pub proof fn lemma_le_bytes_of_value(s: Seq<u8>)
    ensures
        le_bytes(le_value(s), s.len()) == s,
    decreases s.len(),
{
    if s.len() > 0 {
        let tail = s.skip(1);
        lemma_le_bytes_of_value(tail);
        let v = le_value(s);
        assert(v % 256 == s[0] as nat);
        assert(v / 256 == le_value(tail));
        assert(le_bytes(v, s.len()) =~= s);
    } else {
        assert(le_bytes(le_value(s), s.len()) =~= s);
    }
}

/// Two numbers that fit in `n` bytes and have the same encoding are equal.
pub proof fn lemma_le_bytes_injective(x: nat, y: nat, n: nat)
    requires
        x < pow256(n),
        y < pow256(n),
        le_bytes(x, n) == le_bytes(y, n),
    ensures
        x == y,
{
    lemma_le_value_of_bytes(x, n);
    lemma_le_value_of_bytes(y, n);
}

/// The values of `pow256` at the widths of the machine integers.
pub proof fn lemma_pow256_values()
    ensures
        pow256(1) == 0x100,
        pow256(2) == 0x1_0000,
        pow256(4) == 0x1_0000_0000,
        pow256(8) == 0x1_0000_0000_0000_0000,
{
    reveal_with_fuel(pow256, 9);
}

/// The two-byte little-endian encoding of `x`.
pub fn u16_to_le(x: u16) -> (out: [u8; 2])
    ensures
        out@ == le_bytes(x as nat, 2),
{
    let b0: u8 = (x % 256) as u8;
    let b1: u8 = (x / 256) as u8;
    let out = [b0, b1];
    proof {
        reveal_with_fuel(le_bytes, 3);
        assert(out@ =~= le_bytes(x as nat, 2));
    }
    out
}

/// The four-byte little-endian encoding of `x`.
pub fn u32_to_le(x: u32) -> (out: [u8; 4])
    ensures
        out@ == le_bytes(x as nat, 4),
{
    let x1: u32 = x / 256;
    let x2: u32 = x1 / 256;
    let x3: u32 = x2 / 256;
    let out = [(x % 256) as u8, (x1 % 256) as u8, (x2 % 256) as u8, (x3 % 256) as u8];
    proof {
        reveal_with_fuel(le_bytes, 5);
        assert(out@ =~= le_bytes(x as nat, 4));
    }
    out
}

/// The eight-byte little-endian encoding of `x`.
pub fn u64_to_le(x: u64) -> (out: [u8; 8])
    ensures
        out@ == le_bytes(x as nat, 8),
{
    let x1: u64 = x / 256;
    let x2: u64 = x1 / 256;
    let x3: u64 = x2 / 256;
    let x4: u64 = x3 / 256;
    let x5: u64 = x4 / 256;
    let x6: u64 = x5 / 256;
    let x7: u64 = x6 / 256;
    let out = [
        (x % 256) as u8,
        (x1 % 256) as u8,
        (x2 % 256) as u8,
        (x3 % 256) as u8,
        (x4 % 256) as u8,
        (x5 % 256) as u8,
        (x6 % 256) as u8,
        (x7 % 256) as u8,
    ];
    proof {
        reveal_with_fuel(le_bytes, 9);
        assert(out@ =~= le_bytes(x as nat, 8));
    }
    out
}

/// Reads the little-endian `u16` that starts at `at`.
pub fn read_u16_le(data: &[u8], at: usize) -> (x: u16)
    requires
        at + 2 <= data@.len(),
    ensures
        x == le_value(data@.subrange(at as int, at + 2)),
{
    let b0: u16 = data[at] as u16;
    let b1: u16 = data[at + 1] as u16;
    proof {
        let s = data@.subrange(at as int, at + 2);
        reveal_with_fuel(le_value, 3);
        assert(s.skip(1).skip(1).len() == 0);
        assert(s.skip(1)[0] == s[1]);
    }
    b0 + 256 * b1
}

/// Reads the little-endian `u32` that starts at `at`.
pub fn read_u32_le(data: &[u8], at: usize) -> (x: u32)
    requires
        at + 4 <= data@.len(),
    ensures
        x == le_value(data@.subrange(at as int, at + 4)),
{
    let b0: u32 = data[at] as u32;
    let b1: u32 = data[at + 1] as u32;
    let b2: u32 = data[at + 2] as u32;
    let b3: u32 = data[at + 3] as u32;
    proof {
        let s = data@.subrange(at as int, at + 4);
        lemma_le_value_digits(s, 4);
    }
    b0 + 256 * (b1 + 256 * (b2 + 256 * b3))
}

/// Reads the little-endian `u64` that starts at `at`.
pub fn read_u64_le(data: &[u8], at: usize) -> (x: u64)
    requires
        at + 8 <= data@.len(),
    ensures
        x == le_value(data@.subrange(at as int, at + 8)),
{
    let b0: u64 = data[at] as u64;
    let b1: u64 = data[at + 1] as u64;
    let b2: u64 = data[at + 2] as u64;
    let b3: u64 = data[at + 3] as u64;
    let b4: u64 = data[at + 4] as u64;
    let b5: u64 = data[at + 5] as u64;
    let b6: u64 = data[at + 6] as u64;
    let b7: u64 = data[at + 7] as u64;
    proof {
        let s = data@.subrange(at as int, at + 8);
        lemma_le_value_digits(s, 8);
    }
    let hi: u64 = b4 + 256 * (b5 + 256 * (b6 + 256 * b7));
    let lo: u64 = b0 + 256 * (b1 + 256 * (b2 + 256 * b3));
    lo + 0x1_0000_0000 * hi
}

/// The value of a sequence written as a sum over its digits, for the widths
/// that the readers above use.
pub proof fn lemma_le_value_digits(s: Seq<u8>, n: nat)
    requires
        s.len() == n,
        n == 4 || n == 8,
    ensures
        n == 4 ==> le_value(s) == s[0] + 256 * (s[1] + 256 * (s[2] + 256 * s[3])),
        n == 8 ==> le_value(s) == (s[0] + 256 * (s[1] + 256 * (s[2] + 256 * s[3])))
            + 0x1_0000_0000 * (s[4] + 256 * (s[5] + 256 * (s[6] + 256 * s[7]))),
{
    let s1 = s.skip(1);
    let s2 = s1.skip(1);
    let s3 = s2.skip(1);
    let s4 = s3.skip(1);
    assert(s1[0] == s[1] && s2[0] == s[2] && s3[0] == s[3]);
    assert(le_value(s) == s[0] + 256 * le_value(s1));
    assert(le_value(s1) == s[1] + 256 * le_value(s2));
    assert(le_value(s2) == s[2] + 256 * le_value(s3));
    assert(le_value(s3) == s[3] + 256 * le_value(s4));
    if n == 4 {
        assert(le_value(s4) == 0);
    } else {
        let s5 = s4.skip(1);
        let s6 = s5.skip(1);
        let s7 = s6.skip(1);
        let s8 = s7.skip(1);
        assert(s4[0] == s[4] && s5[0] == s[5] && s6[0] == s[6] && s7[0] == s[7]);
        assert(le_value(s4) == s[4] + 256 * le_value(s5));
        assert(le_value(s5) == s[5] + 256 * le_value(s6));
        assert(le_value(s6) == s[6] + 256 * le_value(s7));
        assert(le_value(s7) == s[7] + 256 * le_value(s8));
        assert(le_value(s8) == 0);
    }
}

/// Copies the 32 bytes that start at `at`.
pub fn read_array32(data: &[u8], at: usize) -> (out: [u8; 32])
    requires
        at + 32 <= data@.len(),
    ensures
        out@ == data@.subrange(at as int, at + 32),
{
    let mut out = [0u8; 32];
    let len = data.len();
    let mut i: usize = 0;
    while i < 32
        invariant
            i <= 32,
            at + 32 <= len,
            len == data@.len(),
            forall|j: int| 0 <= j < i ==> out@[j] == data@[at + j],
        decreases 32 - i,
    {
        out[i] = data[at + i];
        i = i + 1;
    }
    assert(out@ =~= data@.subrange(at as int, at + 32));
    out
}

/// Whether two byte strings are the same.
pub fn bytes_equal(a: &[u8], b: &[u8]) -> (same: bool)
    ensures
        same == (a@ == b@),
{
    if a.len() != b.len() {
        return false;
    }
    let mut i: usize = 0;
    while i < a.len()
        invariant
            i <= a@.len(),
            a@.len() == b@.len(),
            forall|j: int| 0 <= j < i ==> a@[j] == b@[j],
        decreases a@.len() - i,
    {
        if a[i] != b[i] {
            return false;
        }
        i = i + 1;
    }
    assert(a@ =~= b@);
    true
}

} // verus!
