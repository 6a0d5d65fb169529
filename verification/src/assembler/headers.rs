//! The fixed-layout records of a COFF object file. Every record knows its
//! byte image: the fields in order, each little-endian, with no padding.

use super::bytes::{fixed_field, le_bytes, lemma_le_bytes_len, put_bytes, put_le};
use vstd::prelude::*;
use vstd::string::StringSliceAdditionalSpecFns;

verus! {

/// Size in bytes of a file header.
pub const FILE_HEADER_SIZE: usize = 20;

/// Size in bytes of a section header.
pub const SECTION_HEADER_SIZE: usize = 40;

/// Size in bytes of a relocation entry.
pub const RELOCATION_SIZE: usize = 10;

/// Size in bytes of a symbol-table entry and of an auxiliary record.
pub const SYMBOL_SIZE: usize = 0x12;

/// Machine identifier of x86-64.
pub const MACHINE_AMD64: u16 = 0x8664;

#[allow(non_camel_case_types, non_snake_case)]
#[derive(Clone, Copy, Debug, PartialEq, Eq)]
pub struct FILE_HEADER {
    pub Machine: u16,
    pub NumberOfSections: u16,
    pub TimeDataStamp: u32,
    pub PointerToSymbolTable: u32,
    pub NumberOfSymbols: u32,
    pub SizeOfOptionalHeader: u16,
    pub Characteristics: u16,
}

#[allow(non_camel_case_types, non_snake_case)]
#[derive(Clone, Copy, Debug, PartialEq, Eq)]
pub struct SECTION_HEADER {
    pub Name: [u8; 8],
    pub VirtualSize: u32,
    pub VirtualAddress: u32,
    pub SizeOfRawData: u32,
    pub PointerToRawData: u32,
    pub PointerToRelocations: u32,
    pub PointerToLinenumbers: u32,
    pub NumberOfRelocations: u16,
    pub NumberOfLinenumbers: u16,
    pub Characteristics: u32,
}

#[allow(non_camel_case_types, non_snake_case)]
#[derive(Clone, Copy, Debug, PartialEq, Eq)]
pub struct RELOCATION {
    pub VirtualAddress: u32,
    pub SymbolTableIndex: u32,
    pub Type: u16,
}

#[allow(non_camel_case_types, non_snake_case)]
#[derive(Clone, Copy, Debug, PartialEq, Eq)]
pub struct SYMBOL_TABLE {
    pub Name: [u8; 8],
    pub Value: u32,
    pub SectionNumber: u16,
    pub Type: u16,
    pub StorageClass: u8,
    pub NumberOfAuxSymbols: u8,
}

/// The raw bytes of an auxiliary symbol record.
#[allow(non_camel_case_types)]
#[derive(Clone, Copy, Debug, PartialEq, Eq)]
pub struct SYMBOL_U8 {
    pub data: [u8; 0x12],
}

impl FILE_HEADER {
    /// The byte image of the header.
    pub open spec fn bytes(&self) -> Seq<u8> {
        le_bytes(self.Machine as nat, 2) + le_bytes(self.NumberOfSections as nat, 2) + le_bytes(
            self.TimeDataStamp as nat,
            4,
        ) + le_bytes(self.PointerToSymbolTable as nat, 4) + le_bytes(
            self.NumberOfSymbols as nat,
            4,
        ) + le_bytes(self.SizeOfOptionalHeader as nat, 2) + le_bytes(
            self.Characteristics as nat,
            2,
        )
    }

    /// The byte image of a file header has its fixed size.
    pub proof fn lemma_bytes_len(&self)
        ensures
            self.bytes().len() == FILE_HEADER_SIZE,
    {
        lemma_le_bytes_len(self.Machine as nat, 2);
        lemma_le_bytes_len(self.NumberOfSections as nat, 2);
        lemma_le_bytes_len(self.TimeDataStamp as nat, 4);
        lemma_le_bytes_len(self.PointerToSymbolTable as nat, 4);
        lemma_le_bytes_len(self.NumberOfSymbols as nat, 4);
        lemma_le_bytes_len(self.SizeOfOptionalHeader as nat, 2);
        lemma_le_bytes_len(self.Characteristics as nat, 2);
    }

    /// A header with every field zero.
    pub fn new() -> (h: Self)
        ensures
            h == (FILE_HEADER {
                Machine: 0,
                NumberOfSections: 0,
                TimeDataStamp: 0,
                PointerToSymbolTable: 0,
                NumberOfSymbols: 0,
                SizeOfOptionalHeader: 0,
                Characteristics: 0,
            }),
    {
        Self {
            Machine: 0,
            NumberOfSections: 0,
            TimeDataStamp: 0,
            PointerToSymbolTable: 0,
            NumberOfSymbols: 0,
            SizeOfOptionalHeader: 0,
            Characteristics: 0,
        }
    }

    /// Appends the byte image of the header to `out`.
    pub fn write_to(&self, out: &mut Vec<u8>)
        ensures
            final(out)@ == old(out)@ + self.bytes(),
    {
        put_le(out, self.Machine as u64, 2);
        put_le(out, self.NumberOfSections as u64, 2);
        put_le(out, self.TimeDataStamp as u64, 4);
        put_le(out, self.PointerToSymbolTable as u64, 4);
        put_le(out, self.NumberOfSymbols as u64, 4);
        put_le(out, self.SizeOfOptionalHeader as u64, 2);
        put_le(out, self.Characteristics as u64, 2);
    }
}

impl SECTION_HEADER {
    /// The byte image of the header.
    pub open spec fn bytes(&self) -> Seq<u8> {
        self.Name@ + le_bytes(self.VirtualSize as nat, 4) + le_bytes(self.VirtualAddress as nat, 4)
            + le_bytes(self.SizeOfRawData as nat, 4) + le_bytes(self.PointerToRawData as nat, 4)
            + le_bytes(self.PointerToRelocations as nat, 4) + le_bytes(
            self.PointerToLinenumbers as nat,
            4,
        ) + le_bytes(self.NumberOfRelocations as nat, 2) + le_bytes(
            self.NumberOfLinenumbers as nat,
            2,
        ) + le_bytes(self.Characteristics as nat, 4)
    }

    /// The byte image of a section header has its fixed size.
    pub proof fn lemma_bytes_len(&self)
        ensures
            self.bytes().len() == SECTION_HEADER_SIZE,
    {
        lemma_le_bytes_len(self.VirtualSize as nat, 4);
        lemma_le_bytes_len(self.VirtualAddress as nat, 4);
        lemma_le_bytes_len(self.SizeOfRawData as nat, 4);
        lemma_le_bytes_len(self.PointerToRawData as nat, 4);
        lemma_le_bytes_len(self.PointerToRelocations as nat, 4);
        lemma_le_bytes_len(self.PointerToLinenumbers as nat, 4);
        lemma_le_bytes_len(self.NumberOfRelocations as nat, 2);
        lemma_le_bytes_len(self.NumberOfLinenumbers as nat, 2);
        lemma_le_bytes_len(self.Characteristics as nat, 4);
    }

    /// Appends the byte image of the header to `out`.
    pub fn write_to(&self, out: &mut Vec<u8>)
        ensures
            final(out)@ == old(out)@ + self.bytes(),
    {
        put_bytes(out, self.Name.as_slice());
        put_le(out, self.VirtualSize as u64, 4);
        put_le(out, self.VirtualAddress as u64, 4);
        put_le(out, self.SizeOfRawData as u64, 4);
        put_le(out, self.PointerToRawData as u64, 4);
        put_le(out, self.PointerToRelocations as u64, 4);
        put_le(out, self.PointerToLinenumbers as u64, 4);
        put_le(out, self.NumberOfRelocations as u64, 2);
        put_le(out, self.NumberOfLinenumbers as u64, 2);
        put_le(out, self.Characteristics as u64, 4);
    }
}

impl Default for SECTION_HEADER {
    fn default() -> (h: Self)
        ensures
            h == (SECTION_HEADER {
                Name: h.Name,
                VirtualSize: 0,
                VirtualAddress: 0,
                SizeOfRawData: 0,
                PointerToRawData: 0,
                PointerToRelocations: 0,
                PointerToLinenumbers: 0,
                NumberOfRelocations: 0,
                NumberOfLinenumbers: 0,
                Characteristics: 0,
            }),
            h.Name@ == Seq::new(8, |i: int| 0u8),
    {
        let h = Self {
            Name: [0u8; 8],
            VirtualSize: 0,
            VirtualAddress: 0,
            SizeOfRawData: 0,
            PointerToRawData: 0,
            PointerToRelocations: 0,
            PointerToLinenumbers: 0,
            NumberOfRelocations: 0,
            NumberOfLinenumbers: 0,
            Characteristics: 0,
        };
        h
    }
}

impl Default for FILE_HEADER {
    fn default() -> (h: Self)
        ensures
            h == (FILE_HEADER {
                Machine: 0,
                NumberOfSections: 0,
                TimeDataStamp: 0,
                PointerToSymbolTable: 0,
                NumberOfSymbols: 0,
                SizeOfOptionalHeader: 0,
                Characteristics: 0,
            }),
    {
        FILE_HEADER::new()
    }
}

impl RELOCATION {
    /// The byte image of the entry.
    pub open spec fn bytes(&self) -> Seq<u8> {
        le_bytes(self.VirtualAddress as nat, 4) + le_bytes(self.SymbolTableIndex as nat, 4)
            + le_bytes(self.Type as nat, 2)
    }

    /// The byte image of a relocation entry has its fixed size.
    pub proof fn lemma_bytes_len(&self)
        ensures
            self.bytes().len() == RELOCATION_SIZE,
    {
        lemma_le_bytes_len(self.VirtualAddress as nat, 4);
        lemma_le_bytes_len(self.SymbolTableIndex as nat, 4);
        lemma_le_bytes_len(self.Type as nat, 2);
    }

    /// Appends the byte image of the entry to `out`.
    pub fn write_to(&self, out: &mut Vec<u8>)
        ensures
            final(out)@ == old(out)@ + self.bytes(),
    {
        put_le(out, self.VirtualAddress as u64, 4);
        put_le(out, self.SymbolTableIndex as u64, 4);
        put_le(out, self.Type as u64, 2);
    }
}

impl Default for RELOCATION {
    fn default() -> (r: Self)
        ensures
            r == (RELOCATION { VirtualAddress: 0, SymbolTableIndex: 0, Type: 0 }),
    {
        RELOCATION { VirtualAddress: 0, SymbolTableIndex: 0, Type: 0 }
    }
}

/// The eight-byte name field that holds `name`: cut after eight bytes, or
/// filled up with zero bytes.
pub fn name_field(name: &[u8]) -> (field: [u8; 8])
    ensures
        field@ == fixed_field(name@, 8),
{
    let mut field: [u8; 8] = [0u8; 8];
    let mut i: usize = 0;
    while i < 8
        invariant
            i <= 8,
            forall|j: int| 0 <= j < i ==> field@[j] == fixed_field(name@, 8)[j],
        decreases 8 - i,
    {
        if i < name.len() {
            field[i] = name[i];
        } else {
            field[i] = 0;
        }
        i += 1;
    }
    field
}

impl SYMBOL_TABLE {
    /// The byte image of the entry.
    pub open spec fn bytes(&self) -> Seq<u8> {
        self.Name@ + le_bytes(self.Value as nat, 4) + le_bytes(self.SectionNumber as nat, 2)
            + le_bytes(self.Type as nat, 2) + seq![self.StorageClass, self.NumberOfAuxSymbols]
    }

    /// The byte image of a symbol-table entry has its fixed size.
    pub proof fn lemma_bytes_len(&self)
        ensures
            self.bytes().len() == SYMBOL_SIZE,
    {
        lemma_le_bytes_len(self.Value as nat, 4);
        lemma_le_bytes_len(self.SectionNumber as nat, 2);
        lemma_le_bytes_len(self.Type as nat, 2);
    }

    /// The `.file` entry that opens a symbol table. One auxiliary record, which
    /// holds the name of the source file, follows it.
    pub fn new_dot_file() -> (s: SYMBOL_TABLE)
        ensures
            s.Name@ == fixed_field(".file".spec_bytes(), 8),
            s.Value == 0,
            s.SectionNumber == 0xFFFE,
            s.Type == 0,
            s.StorageClass == 0x67,
            s.NumberOfAuxSymbols == 1,
    {
        let name = ".file".as_bytes();
        SYMBOL_TABLE {
            Name: name_field(name),
            Value: 0,
            SectionNumber: 0xFFFE,
            Type: 0,
            StorageClass: 0x67,
            NumberOfAuxSymbols: 1,
        }
    }

    /// Appends the byte image of the entry to `out`.
    pub fn write_to(&self, out: &mut Vec<u8>)
        ensures
            final(out)@ == old(out)@ + self.bytes(),
    {
        put_bytes(out, self.Name.as_slice());
        put_le(out, self.Value as u64, 4);
        put_le(out, self.SectionNumber as u64, 2);
        put_le(out, self.Type as u64, 2);
        out.push(self.StorageClass);
        out.push(self.NumberOfAuxSymbols);
    }
}

impl Default for SYMBOL_TABLE {
    fn default() -> (s: Self)
        ensures
            s.Name@ == Seq::new(8, |i: int| 0u8),
            s.Value == 0,
            s.SectionNumber == 0,
            s.Type == 0,
            s.StorageClass == 0,
            s.NumberOfAuxSymbols == 0,
    {
        let s = SYMBOL_TABLE {
            Name: [0u8; 8],
            Value: 0,
            SectionNumber: 0,
            Type: 0,
            StorageClass: 0,
            NumberOfAuxSymbols: 0,
        };
        s
    }
}

impl SYMBOL_U8 {
    /// The byte image of the record: its bytes as they stand.
    pub open spec fn bytes(&self) -> Seq<u8> {
        self.data@
    }

    /// Stores `value` as four little-endian bytes at `offset`, and leaves the
    /// other bytes of the record alone.
    pub fn set(&mut self, value: u32, offset: usize)
        requires
            offset + 4 <= SYMBOL_SIZE,
        ensures
            final(self).data@ == old(self).data@.subrange(0, offset as int) + le_bytes(
                value as nat,
                4,
            ) + old(self).data@.subrange(offset + 4, SYMBOL_SIZE as int),
    {
        let mut rest: u32 = value;
        let mut i: usize = 0;
        while i < 4
            invariant
                i <= 4,
                offset + 4 <= SYMBOL_SIZE,
                self.data@.len() == SYMBOL_SIZE,
                self.data@.subrange(0, offset as int) == old(self).data@.subrange(
                    0,
                    offset as int,
                ),
                self.data@.subrange(offset + 4, SYMBOL_SIZE as int) == old(self).data@.subrange(
                    offset + 4,
                    SYMBOL_SIZE as int,
                ),
                self.data@.subrange(offset as int, offset + i) + le_bytes(
                    rest as nat,
                    (4 - i) as nat,
                ) == le_bytes(value as nat, 4),
            decreases 4 - i,
        {
            self.data[offset + i] = (rest % 256) as u8;
            rest = rest / 256;
            i += 1;
        }
    }

    /// Appends the record to `out`.
    pub fn write_to(&self, out: &mut Vec<u8>)
        ensures
            final(out)@ == old(out)@ + self.bytes(),
    {
        put_bytes(out, self.data.as_slice());
    }
}

impl Default for SYMBOL_U8 {
    fn default() -> (s: Self)
        ensures
            s.data@ == Seq::new(SYMBOL_SIZE as nat, |i: int| 0u8),
    {
        let s = SYMBOL_U8 { data: [0u8; 0x12] };
        s
    }
}

/// The first `size` bytes of `p` in little-endian order; beyond the eight
/// bytes of `p` they are zero.
pub fn as_u8_slice_size(p: u64, size: usize) -> (bytes: Vec<u8>)
    ensures
        bytes@ == le_bytes(p as nat, size as nat),
{
    let mut bytes: Vec<u8> = Vec::new();
    put_le(&mut bytes, p, size);
    bytes
}

} // verus!
