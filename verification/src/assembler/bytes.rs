//! Little-endian integers, zero fill and fixed-width name fields.

use vstd::prelude::*;

verus! {

/// The `width` low-order bytes of `v`, least significant first. A width
/// beyond the size of `v` continues with zero bytes.
pub open spec fn le_bytes(v: nat, width: nat) -> Seq<u8>
    decreases width,
{
    if width == 0 {
        Seq::empty()
    } else {
        seq![(v % 256) as u8] + le_bytes(v / 256, (width - 1) as nat)
    }
}

/// `n` zero bytes.
pub open spec fn zeros(n: nat) -> Seq<u8> {
    Seq::new(n, |i: int| 0u8)
}

/// `name` cut or zero-padded to exactly `width` bytes.
pub open spec fn fixed_field(name: Seq<u8>, width: nat) -> Seq<u8> {
    Seq::new(
        width,
        |i: int|
            if i < name.len() {
                name[i]
            } else {
                0u8
            },
    )
}

/// `le_bytes` gives exactly `width` bytes.
pub proof fn lemma_le_bytes_len(v: nat, width: nat)
    ensures
        le_bytes(v, width).len() == width,
    decreases width,
{
    if width > 0 {
        lemma_le_bytes_len(v / 256, (width - 1) as nat);
    }
}

/// 256 to the power `n`.
pub open spec fn pow256(n: nat) -> nat
    decreases n,
{
    if n == 0 {
        1
    } else {
        256 * pow256((n - 1) as nat)
    }
}

/// A power of 256 is positive.
pub proof fn lemma_pow256_positive(n: nat)
    ensures
        pow256(n) > 0,
    decreases n,
{
    if n > 0 {
        lemma_pow256_positive((n - 1) as nat);
    }
}

/// The `width` low-order bytes of a number are those of its remainder
/// modulo 256 to the power `width`: what lies above them is cut off.
pub proof fn lemma_le_bytes_cut(v: nat, width: nat)
    ensures
        le_bytes(v, width) == le_bytes(v % pow256(width), width),
    decreases width,
{
    if width > 0 {
        let rest = (width - 1) as nat;
        let m = pow256(rest);
        lemma_pow256_positive(rest);
        let low = v % pow256(width);
        vstd::arithmetic::div_mod::lemma_breakdown(v as int, 256, m as int);
        lemma_le_bytes_cut(v / 256, rest);
    }
}

/// Appends the `width` low-order bytes of `v`, least significant first.
pub fn put_le(out: &mut Vec<u8>, v: u64, width: usize)
    ensures
        final(out)@ == old(out)@ + le_bytes(v as nat, width as nat),
{
    let mut rest: u64 = v;
    let mut i: usize = 0;
    while i < width
        invariant
            i <= width,
            out@ + le_bytes(rest as nat, (width - i) as nat) == old(out)@ + le_bytes(
                v as nat,
                width as nat,
            ),
        decreases width - i,
    {
        out.push((rest % 256) as u8);
        rest = rest / 256;
        i += 1;
    }
}

/// Appends `n` zero bytes.
pub fn put_zeros(out: &mut Vec<u8>, n: usize)
    ensures
        final(out)@ == old(out)@ + zeros(n as nat),
{
    let mut i: usize = 0;
    while i < n
        invariant
            i <= n,
            out@ == old(out)@ + zeros(i as nat),
        decreases n - i,
    {
        out.push(0u8);
        i += 1;
    }
}

/// Appends a copy of `bytes`.
pub fn put_bytes(out: &mut Vec<u8>, bytes: &[u8])
    ensures
        final(out)@ == old(out)@ + bytes@,
{
    let mut i: usize = 0;
    while i < bytes.len()
        invariant
            i <= bytes.len(),
            out@ == old(out)@ + bytes@.subrange(0, i as int),
        decreases bytes.len() - i,
    {
        out.push(bytes[i]);
        i += 1;
    }
}

/// Appends `name` cut or zero-padded to exactly `width` bytes.
pub fn put_fixed(out: &mut Vec<u8>, name: &[u8], width: usize)
    ensures
        final(out)@ == old(out)@ + fixed_field(name@, width as nat),
{
    let mut i: usize = 0;
    while i < width
        invariant
            i <= width,
            out@ == old(out)@ + fixed_field(name@, i as nat),
        decreases width - i,
    {
        let b: u8 = if i < name.len() {
            name[i]
        } else {
            0
        };
        out.push(b);
        i += 1;
    }
}

} // verus!
