//! Numbers as text.

use super::bytes::put_bytes;
use super::encode::{decimal, is_figure};
use super::scan::{is_digit_byte, NEWLINE, SPACE};
use super::section::{Section, SectionView};
use vstd::prelude::*;
use vstd::string::StringSliceAdditionalSpecFns;

verus! {

/// The decimal digits of a number, without leading zeros.
pub open spec fn decimal_digits(n: nat) -> Seq<u8>
    decreases n,
{
    if n < 10 {
        seq![(0x30 + n) as u8]
    } else {
        decimal_digits(n / 10).push((0x30 + n % 10) as u8)
    }
}

/// The upper-case hexadecimal digit of a number below 16.
pub open spec fn hex_digit(d: nat) -> u8 {
    if d < 10 {
        (0x30 + d) as u8
    } else {
        (0x41 + d - 10) as u8
    }
}

/// The two upper-case hexadecimal digits of a byte.
pub open spec fn hex_pair(b: u8) -> Seq<u8> {
    seq![hex_digit(b as nat / 16), hex_digit(b as nat % 16)]
}

/// The digits of a number are a figure, and the figure writes the number.
pub proof fn lemma_decimal_digits(n: nat)
    ensures
        is_figure(decimal_digits(n)),
        decimal(decimal_digits(n)) == n,
    decreases n,
{
    if n >= 10 {
        lemma_decimal_digits(n / 10);
        let front = decimal_digits(n / 10);
        let all = decimal_digits(n);
        assert(all.drop_last() =~= front);
        assert forall|i: int| 0 <= i < all.len() implies is_digit_byte(#[trigger] all[i]) by {}
    } else {
        reveal_with_fuel(decimal, 2);
    }
}

/// Appends the decimal digits of `n`.
pub fn put_decimal(out: &mut Vec<u8>, n: usize)
    ensures
        final(out)@ == old(out)@ + decimal_digits(n as nat),
    decreases n,
{
    if n >= 10 {
        put_decimal(out, n / 10);
    }
    out.push(0x30 + (n % 10) as u8);
}

/// Appends the two upper-case hexadecimal digits of `b`.
pub fn put_hex(out: &mut Vec<u8>, b: u8)
    ensures
        final(out)@ == old(out)@ + hex_pair(b),
{
    let high: u8 = b / 16;
    let low: u8 = b % 16;
    out.push(
        if high < 10 {
            0x30 + high
        } else {
            0x41 + (high - 10)
        },
    );
    out.push(
        if low < 10 {
            0x30 + low
        } else {
            0x41 + (low - 10)
        },
    );
}

/// The first `n` bytes of `data` in hexadecimal, each followed by a blank.
pub open spec fn hex_dump(data: Seq<u8>, n: nat) -> Seq<u8>
    decreases n,
{
    if n == 0 {
        Seq::empty()
    } else {
        hex_dump(data, (n - 1) as nat) + hex_pair(data[n - 1]) + seq![SPACE]
    }
}

/// A section as two lines of text: its name between marks, and its data in
/// hexadecimal.
pub open spec fn section_dump(s: SectionView) -> Seq<u8> {
    "#####".spec_bytes() + s.name + "#####".spec_bytes() + seq![NEWLINE] + hex_dump(
        s.data,
        s.data.len(),
    ) + seq![NEWLINE]
}

/// The first `n` sections as text, one after the other.
pub open spec fn dump(sections: Seq<SectionView>, n: nat) -> Seq<u8>
    decreases n,
{
    if n == 0 {
        Seq::empty()
    } else {
        dump(sections, (n - 1) as nat) + section_dump(sections[n - 1])
    }
}

/// Appends a section as two lines of text.
pub fn put_section(out: &mut Vec<u8>, section: &Section<'_>)
    ensures
        final(out)@ == old(out)@ + section_dump(section@),
{
    put_bytes(out, "#####".as_bytes());
    put_bytes(out, section.name());
    put_bytes(out, "#####".as_bytes());
    out.push(NEWLINE);
    let ghost head = out@;
    let data = section.data();
    let mut i: usize = 0;
    while i < data.len()
        invariant
            i <= data@.len(),
            data@ == section@.data,
            out@ == head + hex_dump(data@, i as nat),
        decreases data@.len() - i,
    {
        put_hex(out, data[i]);
        out.push(SPACE);
        i += 1;
    }
    out.push(NEWLINE);
}

} // verus!
