//! The layout of an object file: where each part of an assembled program
//! goes, and the bytes it goes as.

use super::bytes::{fixed_field, le_bytes, lemma_le_bytes_len, put_bytes, put_fixed, put_le, zeros};
use super::fault::FormatError;
use super::headers::{
    name_field,
    FILE_HEADER,
    FILE_HEADER_SIZE,
    MACHINE_AMD64,
    RELOCATION_SIZE,
    SECTION_HEADER,
    SECTION_HEADER_SIZE,
    SYMBOL_SIZE,
    SYMBOL_TABLE,
    SYMBOL_U8,
};
use super::section::{
    characteristics,
    length16,
    length32,
    low16,
    low32,
    name_array,
    section_header,
    Label,
    LabelView,
    Section,
    SectionView,
};
use vstd::prelude::*;
use vstd::string::StringSliceAdditionalSpecFns;

verus! {

/// What a run has accumulated: the sections in the order of their
/// declaration, and the labels in the order of their definition.
pub struct Image {
    pub sections: Seq<SectionView>,
    pub labels: Seq<LabelView>,
}

/// The sections of a run as mathematical values.
pub open spec fn section_views<'a>(sections: Seq<Section<'a>>) -> Seq<SectionView> {
    Seq::new(sections.len(), |i: int| sections[i]@)
}

/// The labels of a run as mathematical values.
pub open spec fn label_views<'a>(labels: Seq<Label<'a>>) -> Seq<LabelView> {
    Seq::new(labels.len(), |i: int| labels[i]@)
}

/// The file space that a section takes: its data, then its relocation slots.
pub open spec fn span(s: SectionView) -> nat {
    s.data.len() + RELOCATION_SIZE as nat * s.relocations
}

/// The file space that the first `n` sections take together.
pub open spec fn spans(sections: Seq<SectionView>, n: nat) -> nat
    decreases n,
{
    if n == 0 {
        0
    } else {
        spans(sections, (n - 1) as nat) + span(sections[n - 1])
    }
}

/// The file offset at which section data starts: right after the file header
/// and a table of `count` section headers.
pub open spec fn data_start(count: nat) -> nat {
    FILE_HEADER_SIZE as nat + SECTION_HEADER_SIZE as nat * count
}

/// The file offset of the raw data of section `i`. With `i` the number of
/// sections it is the offset at which the symbol table starts.
pub open spec fn raw_pointer(sections: Seq<SectionView>, i: nat) -> nat {
    data_start(sections.len()) + spans(sections, i)
}

/// The file offset of the relocation slots of section `i`.
pub open spec fn relocation_pointer(sections: Seq<SectionView>, i: nat) -> nat {
    raw_pointer(sections, i) + sections[i as int].data.len()
}

/// The header of section `i` as it stands in the section table.
pub open spec fn placed_header(sections: Seq<SectionView>, i: nat) -> SECTION_HEADER {
    section_header(
        sections[i as int],
        characteristics(sections[i as int].name).unwrap(),
        raw_pointer(sections, i),
        relocation_pointer(sections, i),
    )
}

/// The headers of the first `n` sections, one after the other.
pub open spec fn header_table(sections: Seq<SectionView>, n: nat) -> Seq<u8>
    decreases n,
{
    if n == 0 {
        Seq::empty()
    } else {
        header_table(sections, (n - 1) as nat) + placed_header(sections, (n - 1) as nat).bytes()
    }
}

/// The data of the first `n` sections, one after the other.
pub open spec fn raw_data(sections: Seq<SectionView>, n: nat) -> Seq<u8>
    decreases n,
{
    if n == 0 {
        Seq::empty()
    } else {
        raw_data(sections, (n - 1) as nat) + sections[n - 1].data
    }
}

/// The `.file` symbol.
pub open spec fn dot_file() -> SYMBOL_TABLE {
    SYMBOL_TABLE {
        Name: name_array(".file".spec_bytes()),
        Value: 0,
        SectionNumber: 0xFFFE,
        Type: 0,
        StorageClass: 0x67,
        NumberOfAuxSymbols: 1,
    }
}

/// The symbol that defines the section with the zero-based index `index`.
pub open spec fn section_symbol(s: SectionView, index: nat) -> SYMBOL_TABLE {
    SYMBOL_TABLE {
        Name: name_array(s.name),
        Value: 0,
        SectionNumber: low16(index + 1),
        Type: 0,
        StorageClass: 3,
        NumberOfAuxSymbols: 1,
    }
}

/// The auxiliary record of a section symbol: the length of the data, the
/// number of relocations, and zero bytes to the end.
pub open spec fn section_aux(s: SectionView) -> Seq<u8> {
    le_bytes(low32(s.data.len()) as nat, 4) + le_bytes(low32(s.relocations) as nat, 4) + zeros(10)
}

/// The symbol of a label.
pub open spec fn label_symbol(l: LabelView) -> SYMBOL_TABLE {
    SYMBOL_TABLE {
        Name: name_array(l.name),
        Value: low32(l.pos),
        SectionNumber: low16(l.section_number),
        Type: 0,
        StorageClass: 2,
        NumberOfAuxSymbols: 0,
    }
}

/// The symbols and auxiliary records of the first `n` sections.
pub open spec fn section_symbols(sections: Seq<SectionView>, n: nat) -> Seq<u8>
    decreases n,
{
    if n == 0 {
        Seq::empty()
    } else {
        section_symbols(sections, (n - 1) as nat) + section_symbol(
            sections[n - 1],
            (n - 1) as nat,
        ).bytes() + section_aux(sections[n - 1])
    }
}

/// The symbols of the first `n` labels.
pub open spec fn label_symbols(labels: Seq<LabelView>, n: nat) -> Seq<u8>
    decreases n,
{
    if n == 0 {
        Seq::empty()
    } else {
        label_symbols(labels, (n - 1) as nat) + label_symbol(labels[n - 1]).bytes()
    }
}

/// The symbol table: the `.file` symbol and the record with the name of the
/// source file, a symbol and a record for each section, a symbol for each
/// label, and the closing 32-bit value 4.
pub open spec fn symbol_table(file: Seq<u8>, img: Image) -> Seq<u8> {
    dot_file().bytes() + fixed_field(file, SYMBOL_SIZE as nat) + section_symbols(
        img.sections,
        img.sections.len(),
    ) + label_symbols(img.labels, img.labels.len()) + le_bytes(4, 4)
}

/// The file header of the object file.
pub open spec fn file_header(file: Seq<u8>, img: Image, timestamp: u32) -> FILE_HEADER {
    FILE_HEADER {
        Machine: MACHINE_AMD64,
        NumberOfSections: low16(img.sections.len()),
        TimeDataStamp: timestamp,
        PointerToSymbolTable: low32(raw_pointer(img.sections, img.sections.len())),
        NumberOfSymbols: low32(symbol_table(file, img).len() / SYMBOL_SIZE as nat),
        SizeOfOptionalHeader: 0,
        Characteristics: 0,
    }
}

/// The object file: file header, section table, section data, symbol table.
pub open spec fn object_bytes(file: Seq<u8>, img: Image, timestamp: u32) -> Seq<u8> {
    file_header(file, img, timestamp).bytes() + header_table(img.sections, img.sections.len())
        + raw_data(img.sections, img.sections.len()) + symbol_table(file, img)
}

/// Every section has a name with characteristics flags.
pub open spec fn sections_known(sections: Seq<SectionView>) -> bool {
    forall|j: int| 0 <= j < sections.len() ==> characteristics(#[trigger] sections[j].name) is Some
}

/// Section `i` is the first whose name has no characteristics flags.
pub open spec fn first_unknown_section(sections: Seq<SectionView>, i: int) -> bool {
    &&& 0 <= i < sections.len()
    &&& characteristics(sections[i].name) is None
    &&& forall|j: int| 0 <= j < i ==> characteristics(#[trigger] sections[j].name) is Some
}

/// The name of every label fits a name field.
pub open spec fn labels_fit(labels: Seq<LabelView>) -> bool {
    forall|j: int| 0 <= j < labels.len() ==> (#[trigger] labels[j]).name.len() <= 8
}

/// Label `i` is the first whose name does not fit a name field.
pub open spec fn first_long_label(labels: Seq<LabelView>, i: int) -> bool {
    &&& 0 <= i < labels.len()
    &&& labels[i].name.len() > 8
    &&& forall|j: int| 0 <= j < i ==> (#[trigger] labels[j]).name.len() <= 8
}

/// What laying out gives for a program: the object file, or the first thing
/// that stands in its way. Sections are looked at first, then the name of
/// the source file, then the labels.
pub open spec fn lays_out(
    file: Seq<u8>,
    img: Image,
    timestamp: u32,
    r: Result<Seq<u8>, FormatError>,
) -> bool {
    match r {
        Err(FormatError::UnknownSection(i)) => first_unknown_section(img.sections, i as int),
        Err(FormatError::FileName) => sections_known(img.sections) && file.len() > SYMBOL_SIZE,
        Err(FormatError::LabelName(i)) => sections_known(img.sections) && file.len()
            <= SYMBOL_SIZE && first_long_label(img.labels, i as int),
        Ok(bytes) => sections_known(img.sections) && file.len() <= SYMBOL_SIZE && labels_fit(
            img.labels,
        ) && bytes == object_bytes(file, img, timestamp),
    }
}

/// The bytes inside a result.
pub open spec fn bytes_of(r: Result<Vec<u8>, FormatError>) -> Result<Seq<u8>, FormatError> {
    match r {
        Ok(v) => Ok(v@),
        Err(e) => Err(e),
    }
}

/// Adding to a number and adding to its low 32 bits agree in the low 32 bits.
pub proof fn lemma_low32_add(a: nat, b: nat)
    ensures
        low32(a + b) == low32(low32(a) as nat + b),
{
}

/// The low 32 bits of `p + scale * n`.
fn advance(p: u32, n: usize, scale: u8) -> (r: u32)
    ensures
        r == low32(p as nat + scale as nat * n as nat),
{
    let low: u64 = (n as u64) % 0x1_0000_0000;
    assert(low * (scale as u64) < 0x100_0000_0000) by (nonlinear_arith)
        requires
            scale < 256,
            low < 0x1_0000_0000,
    ;
    let step: u64 = low * (scale as u64);
    let r: u64 = (p as u64 + step) % 0x1_0000_0000;
    assert(r == low32(p as nat + scale as nat * n as nat)) by {
        let m = 0x1_0000_0000int;
        let q = n as int / m;
        let lo = n as int % m;
        assert(n as int == m * q + lo);
        assert(scale as int * n as int == m * (scale as int * q) + scale as int * lo)
            by (nonlinear_arith)
            requires
                n as int == m * q + lo,
        ;
        vstd::arithmetic::div_mod::lemma_mod_multiples_vanish(
            scale as int * q,
            p as int + scale as int * lo,
            m,
        );
    }
    r as u32
}

/// Builds the section table, or names the first section that cannot be in it.
/// With the table comes the low 32 bits of the file offset at which the
/// section data ends.
pub fn build_header_table(sections: &Vec<Section<'_>>) -> (r: Result<(Vec<u8>, u32), usize>)
    ensures
        match r {
            Ok((table, end)) => sections_known(section_views(sections@)) && table@
                == header_table(section_views(sections@), sections@.len()) && end == low32(
                raw_pointer(section_views(sections@), sections@.len()),
            ),
            Err(i) => first_unknown_section(section_views(sections@), i as int),
        },
{
    let ghost views = section_views(sections@);
    let n: usize = sections.len();
    let mut table: Vec<u8> = Vec::new();
    let mut p: u32 = advance(FILE_HEADER_SIZE as u32, n, SECTION_HEADER_SIZE as u8);
    let mut i: usize = 0;
    while i < n
        invariant
            i <= n,
            n == sections@.len(),
            views == section_views(sections@),
            p == low32(raw_pointer(views, i as nat)),
            table@ == header_table(views, i as nat),
            forall|j: int| 0 <= j < i ==> characteristics(#[trigger] views[j].name) is Some,
        decreases n - i,
    {
        let sec = &sections[i];
        match sec.to_section_header() {
            None => {
                return Err(i);
            },
            Some(plain) => {
                let raw: u32 = p;
                let rel: u32 = advance(raw, sec.data().len(), 1);
                let next: u32 = advance(rel, sec.number_of_relocations(), RELOCATION_SIZE as u8);
                proof {
                    let at = raw_pointer(views, i as nat);
                    lemma_low32_add(at, sec@.data.len());
                    lemma_low32_add(at + sec@.data.len(), RELOCATION_SIZE as nat * sec@.relocations);
                }
                let sh = SECTION_HEADER {
                    Name: plain.Name,
                    VirtualSize: plain.VirtualSize,
                    VirtualAddress: plain.VirtualAddress,
                    SizeOfRawData: plain.SizeOfRawData,
                    PointerToRawData: raw,
                    PointerToRelocations: rel,
                    PointerToLinenumbers: plain.PointerToLinenumbers,
                    NumberOfRelocations: plain.NumberOfRelocations,
                    NumberOfLinenumbers: plain.NumberOfLinenumbers,
                    Characteristics: plain.Characteristics,
                };
                sh.write_to(&mut table);
                p = next;
            },
        }
        i += 1;
    }
    Ok((table, p))
}

/// Builds the symbol table, or names the first label that cannot be in it.
fn build_symbol_table(file: &[u8], sections: &Vec<Section<'_>>, labels: &Vec<Label<'_>>) -> (r:
    Result<Vec<u8>, usize>)
    requires
        file@.len() <= SYMBOL_SIZE,
    ensures
        match r {
            Ok(table) => labels_fit(label_views(labels@)) && table@ == symbol_table(
                file@,
                Image { sections: section_views(sections@), labels: label_views(labels@) },
            ),
            Err(i) => first_long_label(label_views(labels@), i as int),
        },
{
    let ghost views = section_views(sections@);
    let ghost marks = label_views(labels@);
    let mut table: Vec<u8> = Vec::new();
    let head = SYMBOL_TABLE::new_dot_file();
    proof {
        assert(head.Name == name_array(".file".spec_bytes()));
    }
    head.write_to(&mut table);
    put_fixed(&mut table, file, SYMBOL_SIZE);
    let ghost prefix = table@;
    let n: usize = sections.len();
    let mut i: usize = 0;
    while i < n
        invariant
            i <= n,
            n == sections@.len(),
            views == section_views(sections@),
            table@ == prefix + section_symbols(views, i as nat),
        decreases n - i,
    {
        let sec = &sections[i];
        let symbol = SYMBOL_TABLE {
            Name: name_field(sec.name()),
            Value: 0,
            SectionNumber: length16(i + 1),
            Type: 0,
            StorageClass: 3,
            NumberOfAuxSymbols: 1,
        };
        let mut aux = SYMBOL_U8::default();
        aux.set(length32(sec.data().len()), 0);
        aux.set(length32(sec.number_of_relocations()), 4);
        proof {
            assert(symbol.Name == name_array(sec@.name));
            lemma_le_bytes_len(low32(sec@.data.len()) as nat, 4);
        }
        symbol.write_to(&mut table);
        aux.write_to(&mut table);
        i += 1;
    }
    let ghost middle = table@;
    let m: usize = labels.len();
    let mut k: usize = 0;
    while k < m
        invariant
            k <= m,
            m == labels@.len(),
            marks == label_views(labels@),
            table@ == middle + label_symbols(marks, k as nat),
            forall|j: int| 0 <= j < k ==> (#[trigger] marks[j]).name.len() <= 8,
        decreases m - k,
    {
        let label = &labels[k];
        if label.name().len() > 8 {
            return Err(k);
        }
        let symbol = SYMBOL_TABLE {
            Name: name_field(label.name()),
            Value: length32(label.pos()),
            SectionNumber: length16(label.section_number()),
            Type: 0,
            StorageClass: 2,
            NumberOfAuxSymbols: 0,
        };
        proof {
            assert(symbol.Name == name_array(label@.name));
        }
        symbol.write_to(&mut table);
        k += 1;
    }
    put_le(&mut table, 4, 4);
    Ok(table)
}

/// Lays an assembled program out as an object file stamped `timestamp`: the
/// file header, a header for each section, the data of the sections in
/// order, and the symbol table, with no padding between them. `file` is the
/// name of the source file.
pub fn serialize(
    file: &[u8],
    sections: &Vec<Section<'_>>,
    labels: &Vec<Label<'_>>,
    timestamp: u32,
) -> (r: Result<Vec<u8>, FormatError>)
    ensures
        lays_out(
            file@,
            Image { sections: section_views(sections@), labels: label_views(labels@) },
            timestamp,
            bytes_of(r),
        ),
{
    let ghost img = Image { sections: section_views(sections@), labels: label_views(labels@) };
    let (headers, symbols_at) = match build_header_table(sections) {
        Ok(built) => built,
        Err(i) => {
            return Err(FormatError::UnknownSection(i));
        },
    };
    if file.len() > SYMBOL_SIZE {
        return Err(FormatError::FileName);
    }
    let symbols = match build_symbol_table(file, sections, labels) {
        Ok(table) => table,
        Err(i) => {
            return Err(FormatError::LabelName(i));
        },
    };
    let file_headers = FILE_HEADER {
        Machine: MACHINE_AMD64,
        NumberOfSections: length16(sections.len()),
        TimeDataStamp: timestamp,
        PointerToSymbolTable: symbols_at,
        NumberOfSymbols: length32(symbols.len() / SYMBOL_SIZE),
        SizeOfOptionalHeader: 0,
        Characteristics: 0,
    };
    let mut out: Vec<u8> = Vec::new();
    file_headers.write_to(&mut out);
    put_bytes(&mut out, headers.as_slice());
    let ghost front = out@;
    let n: usize = sections.len();
    let mut i: usize = 0;
    while i < n
        invariant
            i <= n,
            n == sections@.len(),
            img.sections == section_views(sections@),
            out@ == front + raw_data(img.sections, i as nat),
        decreases n - i,
    {
        put_bytes(&mut out, sections[i].data());
        i += 1;
    }
    put_bytes(&mut out, symbols.as_slice());
    Ok(out)
}

/// The sizes of raw data that the headers of the first `n` sections state,
/// added up.
pub open spec fn stated_sizes(sections: Seq<SectionView>, n: nat) -> nat
    decreases n,
{
    if n == 0 {
        0
    } else {
        stated_sizes(sections, (n - 1) as nat) + placed_header(
            sections,
            (n - 1) as nat,
        ).SizeOfRawData as nat
    }
}

/// A section table has forty bytes for each section.
pub proof fn lemma_header_table_len(sections: Seq<SectionView>, n: nat)
    ensures
        header_table(sections, n).len() == SECTION_HEADER_SIZE * n,
    decreases n,
{
    if n > 0 {
        lemma_header_table_len(sections, (n - 1) as nat);
        placed_header(sections, (n - 1) as nat).lemma_bytes_len();
    }
}

/// The file space of sections only grows with their number.
pub proof fn lemma_spans_grow(sections: Seq<SectionView>, i: nat, j: nat)
    requires
        i <= j,
    ensures
        spans(sections, i) <= spans(sections, j),
    decreases j,
{
    if i < j {
        lemma_spans_grow(sections, i, (j - 1) as nat);
    }
}

/// As long as no file offset outgrows 32 bits, the headers of two sections
/// state raw data pointers in the order of the sections, and the earlier
/// pointer is strictly the smaller one where the earlier section has data.
pub proof fn lemma_raw_pointers_increase(sections: Seq<SectionView>, i: nat, j: nat)
    requires
        i < j < sections.len(),
        raw_pointer(sections, j) < 0x1_0000_0000,
    ensures
        placed_header(sections, i).PointerToRawData <= placed_header(sections, j).PointerToRawData,
        sections[i as int].data.len() > 0 ==> placed_header(sections, i).PointerToRawData
            < placed_header(sections, j).PointerToRawData,
{
    lemma_spans_grow(sections, i + 1, j);
}

/// As long as no section outgrows 32 bits, the sizes of raw data that the
/// headers state add up to the length of the data of all sections.
pub proof fn lemma_stated_sizes(sections: Seq<SectionView>, n: nat)
    requires
        n <= sections.len(),
        forall|i: int| 0 <= i < n ==> (#[trigger] sections[i]).data.len() < 0x1_0000_0000,
    ensures
        stated_sizes(sections, n) == raw_data(sections, n).len(),
    decreases n,
{
    if n > 0 {
        lemma_stated_sizes(sections, (n - 1) as nat);
    }
}

/// In an object file the data of the sections stands between the section
/// table and the symbol table, and nothing else does: the file is as long
/// as its four parts together.
pub proof fn lemma_object_parts(file: Seq<u8>, img: Image, timestamp: u32)
    ensures
        ({
            let object = object_bytes(file, img, timestamp);
            let n = img.sections.len();
            let from = data_start(n) as int;
            let to = from + raw_data(img.sections, n).len();
            &&& object.len() == to + symbol_table(file, img).len()
            &&& object.subrange(from, to) == raw_data(img.sections, n)
            &&& object.subrange(to, object.len() as int) == symbol_table(file, img)
        }),
{
    let object = object_bytes(file, img, timestamp);
    let n = img.sections.len();
    let from = data_start(n) as int;
    let to = from + raw_data(img.sections, n).len();
    file_header(file, img, timestamp).lemma_bytes_len();
    lemma_header_table_len(img.sections, n);
}

/// Each section takes two entries of the symbol table.
pub proof fn lemma_section_symbols_len(sections: Seq<SectionView>, n: nat)
    ensures
        section_symbols(sections, n).len() == 36 * n,
    decreases n,
{
    if n > 0 {
        let s = sections[n - 1];
        lemma_section_symbols_len(sections, (n - 1) as nat);
        section_symbol(s, (n - 1) as nat).lemma_bytes_len();
        lemma_le_bytes_len(low32(s.data.len()) as nat, 4);
        lemma_le_bytes_len(low32(s.relocations) as nat, 4);
    }
}

/// Each label takes one entry of the symbol table.
pub proof fn lemma_label_symbols_len(labels: Seq<LabelView>, n: nat)
    ensures
        label_symbols(labels, n).len() == 18 * n,
    decreases n,
{
    if n > 0 {
        lemma_label_symbols_len(labels, (n - 1) as nat);
        label_symbol(labels[n - 1]).lemma_bytes_len();
    }
}

/// The symbol table has two entries for the source file, two for each
/// section and one for each label, and four bytes more; the header counts
/// the entries.
pub proof fn lemma_symbol_count(file: Seq<u8>, img: Image, timestamp: u32)
    ensures
        symbol_table(file, img).len() == 18 * (2 + 2 * img.sections.len() + img.labels.len())
            + 4,
        file_header(file, img, timestamp).NumberOfSymbols == low32(
            2 + 2 * img.sections.len() + img.labels.len(),
        ),
{
    dot_file().lemma_bytes_len();
    lemma_section_symbols_len(img.sections, img.sections.len());
    lemma_label_symbols_len(img.labels, img.labels.len());
    lemma_le_bytes_len(4, 4);
}

} // verus!
