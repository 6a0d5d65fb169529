//! Sections and labels: what a run accumulates, and how a section describes
//! itself in the section table.

use super::bytes::{fixed_field, put_bytes, put_zeros, zeros};
use super::headers::{name_field, SECTION_HEADER};
use vstd::prelude::*;
use vstd::string::StringSliceAdditionalSpecFns;

verus! {

/// A section as a mathematical value.
pub struct SectionView {
    pub name: Seq<u8>,
    pub data: Seq<u8>,
    pub relocations: nat,
}

/// A label as a mathematical value.
pub struct LabelView {
    pub name: Seq<u8>,
    pub pos: nat,
    pub section_number: nat,
}

/// A named offset into a section.
#[derive(Clone, Copy, Debug, PartialEq, Eq)]
pub struct Label<'a> {
    name: &'a [u8],
    pos: usize,
    section_number: usize,
}

/// A named contiguous region of output.
#[derive(Debug)]
pub struct Section<'a> {
    name: &'a [u8],
    data: Vec<u8>,
    number_of_relocations: usize,
}

/// Flags of initialized data.
pub const DATA_FLAGS: u32 = 0xC0300040;

/// Flags of code.
pub const TEXT_FLAGS: u32 = 0x60500020;

/// Flags of uninitialized data.
pub const BSS_FLAGS: u32 = 0xC0300080;

/// The low 32 bits of a number.
pub open spec fn low32(n: nat) -> u32 {
    (n % 0x1_0000_0000) as u32
}

/// The low 16 bits of a number.
pub open spec fn low16(n: nat) -> u16 {
    (n % 0x1_0000) as u16
}

/// The characteristics flags that go with a section name: only `.data`,
/// `.text` and `.bss`, spelled exactly so, have any.
pub open spec fn characteristics(name: Seq<u8>) -> Option<u32> {
    if name == ".data".spec_bytes() {
        Some(DATA_FLAGS)
    } else if name == ".text".spec_bytes() {
        Some(TEXT_FLAGS)
    } else if name == ".bss".spec_bytes() {
        Some(BSS_FLAGS)
    } else {
        None
    }
}

/// The eight-byte name field for `name`, as an array.
pub open spec fn name_array(name: Seq<u8>) -> [u8; 8] {
    let f = fixed_field(name, 8);
    [f[0], f[1], f[2], f[3], f[4], f[5], f[6], f[7]]
}

/// The header of section `s` with the given flags, once its raw data is
/// placed at file offset `raw` and its relocations at `relocs`. Sizes and
/// offsets are stored by their low bits.
pub open spec fn section_header(s: SectionView, flags: u32, raw: nat, relocs: nat)
    -> SECTION_HEADER {
    SECTION_HEADER {
        Name: name_array(s.name),
        VirtualSize: 0,
        VirtualAddress: 0,
        SizeOfRawData: low32(s.data.len()),
        PointerToRawData: low32(raw),
        PointerToRelocations: low32(relocs),
        PointerToLinenumbers: 0,
        NumberOfRelocations: low16(s.relocations),
        NumberOfLinenumbers: 0,
        Characteristics: flags,
    }
}

/// The low 32 bits of a length.
pub fn length32(n: usize) -> (r: u32)
    ensures
        r == low32(n as nat),
{
    ((n as u64) % 0x1_0000_0000) as u32
}

/// The low 16 bits of a length.
pub fn length16(n: usize) -> (r: u16)
    ensures
        r == low16(n as nat),
{
    ((n as u64) % 0x1_0000) as u16
}

/// Compares two byte strings.
pub fn same_bytes(a: &[u8], b: &[u8]) -> (r: bool)
    ensures
        r == (a@ == b@),
{
    if a.len() != b.len() {
        return false;
    }
    let mut i: usize = 0;
    while i < a.len()
        invariant
            i <= a.len(),
            a.len() == b.len(),
            forall|j: int| 0 <= j < i ==> a@[j] == b@[j],
        decreases a.len() - i,
    {
        if a[i] != b[i] {
            return false;
        }
        i += 1;
    }
    assert(a@ =~= b@);
    true
}

/// The characteristics flags that go with a section name, if it has any.
pub fn flags_of(name: &[u8]) -> (r: Option<u32>)
    ensures
        r == characteristics(name@),
{
    if same_bytes(name, ".data".as_bytes()) {
        Some(DATA_FLAGS)
    } else if same_bytes(name, ".text".as_bytes()) {
        Some(TEXT_FLAGS)
    } else if same_bytes(name, ".bss".as_bytes()) {
        Some(BSS_FLAGS)
    } else {
        None
    }
}

impl<'a> View for Label<'a> {
    type V = LabelView;

    closed spec fn view(&self) -> LabelView {
        LabelView {
            name: self.name@,
            pos: self.pos as nat,
            section_number: self.section_number as nat,
        }
    }
}

impl<'a> Label<'a> {
    /// A label `name` at offset `pos` of the section with the one-based
    /// number `section_number`.
    pub fn new(name: &'a [u8], pos: usize, section_number: usize) -> (l: Self)
        ensures
            l@ == (LabelView {
                name: name@,
                pos: pos as nat,
                section_number: section_number as nat,
            }),
    {
        Self { name, pos, section_number }
    }

    pub fn name(&self) -> (r: &'a [u8])
        ensures
            r@ == self@.name,
    {
        self.name
    }

    pub fn pos(&self) -> (r: usize)
        ensures
            r == self@.pos,
    {
        self.pos
    }

    pub fn section_number(&self) -> (r: usize)
        ensures
            r == self@.section_number,
    {
        self.section_number
    }
}

impl<'a> View for Section<'a> {
    type V = SectionView;

    closed spec fn view(&self) -> SectionView {
        SectionView {
            name: self.name@,
            data: self.data@,
            relocations: self.number_of_relocations as nat,
        }
    }
}

impl<'a> Section<'a> {
    /// An empty section called `name`, with no relocations.
    pub fn new(name: &'a [u8]) -> (s: Self)
        ensures
            s@ == (SectionView { name: name@, data: Seq::empty(), relocations: 0 }),
    {
        Self { name, data: Vec::new(), number_of_relocations: 0 }
    }

    pub fn name(&self) -> (r: &'a [u8])
        ensures
            r@ == self@.name,
    {
        self.name
    }

    pub fn data(&self) -> (r: &[u8])
        ensures
            r@ == self@.data,
    {
        self.data.as_slice()
    }

    pub fn number_of_relocations(&self) -> (r: usize)
        ensures
            r == self@.relocations,
    {
        self.number_of_relocations
    }

    /// Appends `bytes` to the data of the section.
    pub fn append(&mut self, bytes: &[u8])
        ensures
            final(self)@ == (SectionView { data: old(self)@.data + bytes@, ..old(self)@ }),
    {
        put_bytes(&mut self.data, bytes);
    }

    /// Appends `n` zero bytes to the data of the section.
    pub fn reserve(&mut self, n: usize)
        ensures
            final(self)@ == (SectionView { data: old(self)@.data + zeros(n as nat), ..old(self)@ }),
    {
        put_zeros(&mut self.data, n);
    }

    /// The header that describes the section in the section table, with both
    /// file offsets still zero. There is none for a section whose name has no
    /// characteristics flags.
    pub fn to_section_header(&self) -> (r: Option<SECTION_HEADER>)
        ensures
            match r {
                Some(sh) => characteristics(self@.name) == Some(sh.Characteristics) && sh
                    == section_header(self@, sh.Characteristics, 0, 0),
                None => characteristics(self@.name) is None,
            },
    {
        match flags_of(self.name) {
            Some(flags) => {
                let sh = SECTION_HEADER {
                    Name: name_field(self.name),
                    VirtualSize: 0,
                    VirtualAddress: 0,
                    SizeOfRawData: length32(self.data.len()),
                    PointerToRawData: 0,
                    PointerToRelocations: 0,
                    PointerToLinenumbers: 0,
                    NumberOfRelocations: length16(self.number_of_relocations),
                    NumberOfLinenumbers: 0,
                    Characteristics: flags,
                };
                proof {
                    assert(sh.Name == name_array(self@.name));
                }
                Some(sh)
            },
            None => None,
        }
    }
}

} // verus!
