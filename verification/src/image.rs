//! Image parser: from the bytes of a guest executable to an image descriptor.

use goblin::error::Error;
use goblin::pe::PE;
use vstd::prelude::*;

verus! {

/// The header fields, section table and import list of one image, as decoded
/// and not yet validated.
pub struct RawImage {
    /// COFF machine field.
    pub machine: u16,
    /// From the optional header, where there is one: image base, size of
    /// image, size of headers.
    pub extent: Option<(u64, u32, u32)>,
    /// Entry point RVA.
    pub entry: u32,
    /// Whether the optional header is the 64-bit form.
    pub is_64: bool,
    /// Per section: the eight name bytes, virtual address, pointer to raw
    /// data, size of raw data, characteristics.
    pub sections: Vec<([u8; 8], u32, u32, u32, u32)>,
    /// Per imported symbol: module name, symbol name (or its ordinal
    /// designation), RVA of its import-address-table slot.
    pub imports: Vec<(String, String, usize)>,
}

/// Why the container could not be decoded.
#[derive(Clone, Copy, Debug, PartialEq, Eq, Structural)]
pub enum RawFault {
    /// A signature of the container is not the expected one.
    BadMagic,
    /// A field is inconsistent with the rest of the container.
    Malformed,
    /// A read of the buffer failed: it went beyond the end of the buffer, or
    /// met bytes that the field does not take, such as a name that is no
    /// valid text.
    ReadFailed,
}

/// Mathematical model of a `RawImage`.
pub struct RawModel {
    pub machine: u16,
    pub extent: Option<(u64, u32, u32)>,
    pub entry: u32,
    pub is_64: bool,
    pub sections: Seq<([u8; 8], u32, u32, u32, u32)>,
    pub imports: Seq<(Seq<char>, Seq<char>, usize)>,
}

/// A decoded import list, by the characters of its names.
pub open spec fn import_texts(imports: Seq<(String, String, usize)>) -> Seq<
    (Seq<char>, Seq<char>, usize),
> {
    imports.map_values(|i: (String, String, usize)| (i.0@, i.1@, i.2))
}

impl View for RawImage {
    type V = RawModel;

    open spec fn view(&self) -> RawModel {
        RawModel {
            machine: self.machine,
            extent: self.extent,
            entry: self.entry,
            is_64: self.is_64,
            sections: self.sections@,
            imports: import_texts(self.imports@),
        }
    }
}

/// The outcome of a decoding, by the model of what was decoded.
pub open spec fn decoded(r: Result<RawImage, RawFault>) -> Result<RawModel, RawFault> {
    match r {
        Ok(raw) => Ok(raw@),
        Err(fault) => Err(fault),
    }
}

/// What `goblin::pe::PE::parse` makes of a byte buffer, reduced to the fields
/// that the loader consumes.
pub uninterp spec fn pe_fields(bytes: Seq<u8>) -> Result<RawModel, RawFault>;

/// Decodes the container with `goblin::pe::PE::parse` and copies out the
/// fields of `RawImage`. Of goblin's error only the variant is kept: bad
/// magic, malformed, and every other one (its read errors) as a failed read.
/// The contract claims only that the outcome is a function of the bytes,
/// named `pe_fields`: nothing about the decoding itself is proved here. The
/// call is made only on buffers whose two signatures were checked; that
/// goblin answers every such buffer with a result is taken on trust.
#[verifier::external_body]
fn read_image(bytes: &[u8]) -> (r: Result<RawImage, RawFault>)
    requires
        signature_fault(bytes@).is_none(),
    ensures
        decoded(r) == pe_fields(bytes@),
{
    PE::parse(bytes).map(|pe| RawImage {
        machine: pe.header.coff_header.machine,
        extent: pe.header.optional_header.map(|h| (h.windows_fields.image_base, h.windows_fields.size_of_image, h.windows_fields.size_of_headers)),
        entry: pe.entry,
        is_64: pe.is_64,
        sections: pe.sections.iter().map(|s| (s.name, s.virtual_address, s.pointer_to_raw_data, s.size_of_raw_data, s.characteristics)).collect(),
        imports: pe.imports.iter().map(|i| (i.dll.to_string(), i.name.to_string(), i.offset)).collect(),
    }).map_err(|e| match e {
        Error::BadMagic(_) => RawFault::BadMagic,
        Error::Malformed(_) => RawFault::Malformed,
        _ => RawFault::ReadFailed,
    })
}

/// Machine architecture of a guest image.
#[derive(Clone, Copy, Debug, PartialEq, Eq, Structural)]
pub enum MachineArch {
    X86,
    X86_64,
    Unknown,
}

/// Why an image was refused.
#[derive(Clone, Copy, Debug, PartialEq, Eq, Structural)]
pub enum ParseError {
    Truncated,
    BadMagic,
    UnsupportedMachine,
    MissingOptionalHeader,
    MalformedSectionTable,
}

/// Access that a section declares for its memory.
#[derive(Clone, Copy, Debug, PartialEq, Eq, Structural)]
pub struct SectionPermissions {
    pub read: bool,
    pub write: bool,
    pub execute: bool,
}

/// One section of the image. `name` holds the eight name bytes of the section
/// header, padded with zero bytes.
#[derive(Clone, Copy, Debug)]
pub struct Section {
    pub name: [u8; 8],
    pub virtual_address: u32,
    pub raw_offset: u32,
    pub raw_size: u32,
    pub permissions: SectionPermissions,
}

/// One imported symbol: its name, or the designation of its ordinal, and the
/// RVA of the import-address-table slot that receives its address.
#[derive(Clone, Debug)]
pub struct ImportedSymbol {
    pub name_or_ordinal: String,
    pub iat_slot_rva: u64,
}

/// The symbols that an image imports from one module.
#[derive(Clone, Debug)]
pub struct ImportDescriptor {
    pub module_name: String,
    pub symbols: Vec<ImportedSymbol>,
}

/// What the loader knows of an image once it has been parsed. `is_64_bit` is
/// the bitness that is reported, which the machine field decides.
/// `wide_slots` says whether the optional header is of the 64-bit form: by
/// that form the slots of the import address table are eight bytes wide, or
/// four, whatever the machine field says.
#[derive(Clone, Debug)]
pub struct ImageDescriptor {
    pub path: String,
    pub machine: MachineArch,
    pub is_64_bit: bool,
    pub wide_slots: bool,
    pub base_address: u64,
    pub image_size: u32,
    pub headers_size: u32,
    pub entry_rva: u32,
    pub sections: Vec<Section>,
    pub imports: Vec<ImportDescriptor>,
}

/// Mathematical model of an `ImportedSymbol`.
pub struct SymbolModel {
    pub name_or_ordinal: Seq<char>,
    pub iat_slot_rva: u64,
}

/// Mathematical model of an `ImportDescriptor`.
pub struct ImportModel {
    pub module_name: Seq<char>,
    pub symbols: Seq<SymbolModel>,
}

/// Mathematical model of an `ImageDescriptor`.
pub struct ImageModel {
    pub path: Seq<char>,
    pub machine: MachineArch,
    pub is_64_bit: bool,
    pub wide_slots: bool,
    pub base_address: u64,
    pub image_size: u32,
    pub headers_size: u32,
    pub entry_rva: u32,
    pub sections: Seq<Section>,
    pub imports: Seq<ImportModel>,
}

impl View for ImportedSymbol {
    type V = SymbolModel;

    open spec fn view(&self) -> SymbolModel {
        SymbolModel { name_or_ordinal: self.name_or_ordinal@, iat_slot_rva: self.iat_slot_rva }
    }
}

impl View for ImportDescriptor {
    type V = ImportModel;

    open spec fn view(&self) -> ImportModel {
        ImportModel {
            module_name: self.module_name@,
            symbols: self.symbols@.map_values(|s: ImportedSymbol| s@),
        }
    }
}

impl View for ImageDescriptor {
    type V = ImageModel;

    open spec fn view(&self) -> ImageModel {
        ImageModel {
            path: self.path@,
            machine: self.machine,
            is_64_bit: self.is_64_bit,
            wide_slots: self.wide_slots,
            base_address: self.base_address,
            image_size: self.image_size,
            headers_size: self.headers_size,
            entry_rva: self.entry_rva,
            sections: self.sections@,
            imports: self.imports@.map_values(|d: ImportDescriptor| d@),
        }
    }
}

/// Section characteristic: the section can be executed as code.
pub const SECTION_EXECUTE: u32 = 0x2000_0000;

/// Section characteristic: the section can be read.
pub const SECTION_READ: u32 = 0x4000_0000;

/// Section characteristic: the section can be written to.
pub const SECTION_WRITE: u32 = 0x8000_0000;

/// Machine field of a 64-bit x86 image.
pub const MACHINE_X86_64: u16 = 0x8664;

/// Machine field of a 32-bit x86 image.
pub const MACHINE_X86: u16 = 0x014c;

/// The architecture that a machine field stands for.
pub open spec fn arch_of(machine: u16) -> MachineArch {
    if machine == MACHINE_X86_64 {
        MachineArch::X86_64
    } else if machine == MACHINE_X86 {
        MachineArch::X86
    } else {
        MachineArch::Unknown
    }
}

/// Bitness reported for an image: the machine field decides where it is a
/// known one, and the form of the optional header where it is not.
pub open spec fn bitness_of(machine: u16, header_is_64: bool) -> bool {
    match arch_of(machine) {
        MachineArch::X86_64 => true,
        MachineArch::X86 => false,
        MachineArch::Unknown => header_is_64,
    }
}

/// The permissions that a section's characteristics declare.
pub open spec fn permissions_of(characteristics: u32) -> SectionPermissions {
    SectionPermissions {
        read: (characteristics & SECTION_READ) != 0,
        write: (characteristics & SECTION_WRITE) != 0,
        execute: (characteristics & SECTION_EXECUTE) != 0,
    }
}

/// The section that one decoded section header describes.
pub open spec fn section_of(raw: ([u8; 8], u32, u32, u32, u32)) -> Section {
    Section {
        name: raw.0,
        virtual_address: raw.1,
        raw_offset: raw.2,
        raw_size: raw.3,
        permissions: permissions_of(raw.4),
    }
}

/// A section lies inside an image of the given size.
pub open spec fn section_fits(section: Section, image_size: u32) -> bool {
    section.virtual_address + section.raw_size <= image_size
}

/// The model of one decoded import.
pub open spec fn symbol_of(raw: (Seq<char>, Seq<char>, usize)) -> SymbolModel {
    SymbolModel { name_or_ordinal: raw.1, iat_slot_rva: raw.2 as u64 }
}

/// Imports grouped by module: each run of consecutive imports that name the
/// same module becomes one descriptor, in the order of the import list.
pub open spec fn group_imports(flat: Seq<(Seq<char>, Seq<char>, usize)>) -> Seq<ImportModel>
    decreases flat.len(),
{
    if flat.len() == 0 {
        Seq::empty()
    } else {
        let before = group_imports(flat.drop_last());
        let last = flat.last();
        if before.len() > 0 && before.last().module_name == last.0 {
            before.drop_last().push(
                ImportModel {
                    module_name: last.0,
                    symbols: before.last().symbols.push(symbol_of(last)),
                },
            )
        } else {
            before.push(ImportModel { module_name: last.0, symbols: seq![symbol_of(last)] })
        }
    }
}

/// The error that stands for a decoding fault. A failed read counts as a
/// truncated image.
pub open spec fn fault_error(fault: RawFault) -> ParseError {
    match fault {
        RawFault::BadMagic => ParseError::BadMagic,
        RawFault::Malformed => ParseError::MalformedSectionTable,
        RawFault::ReadFailed => ParseError::Truncated,
    }
}

/// The descriptor of a decoded image, or the reason for refusing it. An image
/// without optional header is refused as such; an entry point outside the
/// image, or a section that reaches beyond it, as a malformed section table.
pub open spec fn describe_spec(raw: RawModel) -> Result<ImageModel, ParseError> {
    match raw.extent {
        None => Err(ParseError::MissingOptionalHeader),
        Some((base, image_size, headers_size)) => {
            let sections = raw.sections.map_values(|s: ([u8; 8], u32, u32, u32, u32)| section_of(s));
            if raw.entry >= image_size {
                Err(ParseError::MalformedSectionTable)
            } else if exists|i: int| 0 <= i < sections.len() && !section_fits(#[trigger] sections[i], image_size) {
                Err(ParseError::MalformedSectionTable)
            } else {
                Ok(
                    ImageModel {
                        path: Seq::empty(),
                        machine: arch_of(raw.machine),
                        is_64_bit: bitness_of(raw.machine, raw.is_64),
                        wide_slots: raw.is_64,
                        base_address: base,
                        image_size,
                        headers_size,
                        entry_rva: raw.entry,
                        sections,
                        imports: group_imports(raw.imports),
                    },
                )
            }
        },
    }
}

/// Length of the legacy header that every image begins with.
pub const DOS_HEADER_SIZE: usize = 64;

/// Offset, in the legacy header, of the pointer to the image signature.
pub const PE_POINTER_OFFSET: usize = 60;

/// The four bytes at `at`, read as a little-endian number.
pub open spec fn le_u32_at(bytes: Seq<u8>, at: int) -> int {
    bytes[at] + bytes[at + 1] * 0x100 + bytes[at + 2] * 0x1_0000 + bytes[at + 3] * 0x100_0000
}

/// What the two signatures of a buffer say against it, if anything. A buffer
/// shorter than the legacy header, or than the place that the header points
/// to for the image signature, is truncated; a buffer that does not begin
/// with `MZ`, or does not hold `PE` and two zero bytes where the header
/// points, has a bad magic.
pub open spec fn signature_fault(bytes: Seq<u8>) -> Option<ParseError> {
    if bytes.len() < DOS_HEADER_SIZE {
        Some(ParseError::Truncated)
    } else if bytes[0] != 0x4D || bytes[1] != 0x5A {
        Some(ParseError::BadMagic)
    } else {
        let at = le_u32_at(bytes, PE_POINTER_OFFSET as int);
        if at + 4 > bytes.len() {
            Some(ParseError::Truncated)
        } else if bytes[at] != 0x50 || bytes[at + 1] != 0x45 || bytes[at + 2] != 0 || bytes[at
            + 3] != 0 {
            Some(ParseError::BadMagic)
        } else {
            None
        }
    }
}

/// What `parse` returns for a byte buffer: the fault of its signatures, or of
/// its decoding, or the descriptor of what was decoded.
pub open spec fn parse_spec(bytes: Seq<u8>) -> Result<ImageModel, ParseError> {
    match signature_fault(bytes) {
        Some(e) => Err(e),
        None => match pe_fields(bytes) {
            Err(fault) => Err(fault_error(fault)),
            Ok(raw) => describe_spec(raw),
        },
    }
}

/// What `extract_imports` returns for a byte buffer.
pub open spec fn extract_imports_spec(bytes: Seq<u8>) -> Result<Seq<ImportModel>, ParseError> {
    match parse_spec(bytes) {
        Err(e) => Err(e),
        Ok(image) => Ok(image.imports),
    }
}

impl ImageModel {
    /// The invariant of a descriptor: the entry point and every section lie
    /// inside the image.
    pub open spec fn wf(self) -> bool {
        &&& self.entry_rva < self.image_size
        &&& forall|i: int|
            0 <= i < self.sections.len() ==> section_fits(#[trigger] self.sections[i], self.image_size)
    }
}

impl ImageDescriptor {
    /// The invariant of a descriptor, on the executable type.
    pub open spec fn wf(&self) -> bool {
        self@.wf()
    }

    /// The descriptor with the path that the image was read from.
    pub fn at_path(self, path: &str) -> (d: ImageDescriptor)
        ensures
            d@ == image_at(self@, path@),
    {
        ImageDescriptor {
            path: path.to_owned(),
            machine: self.machine,
            is_64_bit: self.is_64_bit,
            wide_slots: self.wide_slots,
            base_address: self.base_address,
            image_size: self.image_size,
            headers_size: self.headers_size,
            entry_rva: self.entry_rva,
            sections: self.sections,
            imports: self.imports,
        }
    }
}

/// An image with its source path set.
pub open spec fn image_at(image: ImageModel, path: Seq<char>) -> ImageModel {
    ImageModel { path, ..image }
}

impl MachineArch {
    /// The architecture that a machine field stands for.
    pub fn from_machine(machine: u16) -> (arch: MachineArch)
        ensures
            arch == arch_of(machine),
    {
        if machine == MACHINE_X86_64 {
            MachineArch::X86_64
        } else if machine == MACHINE_X86 {
            MachineArch::X86
        } else {
            MachineArch::Unknown
        }
    }

    /// The name under which the architecture is reported.
    pub fn name(&self) -> (name: &'static str)
        ensures
            name@ == arch_name(*self),
    {
        match self {
            MachineArch::X86_64 => "x86_64",
            MachineArch::X86 => "x86",
            MachineArch::Unknown => "Unknown",
        }
    }
}

/// The name under which an architecture is reported.
pub open spec fn arch_name(arch: MachineArch) -> Seq<char> {
    match arch {
        MachineArch::X86_64 => "x86_64"@,
        MachineArch::X86 => "x86"@,
        MachineArch::Unknown => "Unknown"@,
    }
}

impl SectionPermissions {
    /// The permissions that a section's characteristics declare.
    pub fn from_characteristics(characteristics: u32) -> (p: SectionPermissions)
        ensures
            p == permissions_of(characteristics),
    {
        SectionPermissions {
            read: (characteristics & SECTION_READ) != 0,
            write: (characteristics & SECTION_WRITE) != 0,
            execute: (characteristics & SECTION_EXECUTE) != 0,
        }
    }
}

/// Groups a decoded import list by module.
fn collect_imports(flat: &Vec<(String, String, usize)>) -> (groups: Vec<ImportDescriptor>)
    ensures
        groups@.map_values(|d: ImportDescriptor| d@) == group_imports(import_texts(flat@)),
{
    let ghost model = import_texts(flat@);
    let mut done: Vec<ImportDescriptor> = Vec::new();
    if flat.len() == 0 {
        assert(done@.map_values(|d: ImportDescriptor| d@) =~= group_imports(model));
        return done;
    }
    let mut module: String = flat[0].0.clone();
    let mut symbols: Vec<ImportedSymbol> = Vec::new();
    symbols.push(ImportedSymbol { name_or_ordinal: flat[0].1.clone(), iat_slot_rva: flat[0].2 as u64 });
    proof {
        let one = model.take(1);
        assert(model[0] == (flat@[0].0@, flat@[0].1@, flat@[0].2));
        assert(one.drop_last() =~= Seq::<(Seq<char>, Seq<char>, usize)>::empty());
        assert(group_imports(one.drop_last()) =~= Seq::<ImportModel>::empty());
        assert(symbols@.map_values(|s: ImportedSymbol| s@) =~= seq![symbol_of(model[0])]);
        assert(done@.map_values(|d: ImportDescriptor| d@).push(
            ImportModel { module_name: module@, symbols: symbols@.map_values(|s: ImportedSymbol| s@) },
        ) =~= group_imports(one));
    }
    let mut i: usize = 1;
    while i < flat.len()
        invariant
            1 <= i <= flat.len(),
            model == import_texts(flat@),
            done@.map_values(|d: ImportDescriptor| d@).push(
                ImportModel { module_name: module@, symbols: symbols@.map_values(|s: ImportedSymbol| s@) },
            ) == group_imports(model.take(i as int)),
        decreases flat.len() - i,
    {
        let ghost before = group_imports(model.take(i as int));
        let ghost shown = done@.map_values(|d: ImportDescriptor| d@);
        let ghost current = ImportModel {
            module_name: module@,
            symbols: symbols@.map_values(|s: ImportedSymbol| s@),
        };
        proof {
            assert(model[i as int] == (flat@[i as int].0@, flat@[i as int].1@, flat@[i as int].2));
            assert(model.take(i + 1).drop_last() =~= model.take(i as int));
            assert(model.take(i + 1).last() == model[i as int]);
            assert(before.last() == current);
            assert(before.drop_last() =~= shown);
        }
        let entry = &flat[i];
        let symbol = ImportedSymbol { name_or_ordinal: entry.1.clone(), iat_slot_rva: entry.2 as u64 };
        if entry.0 == module {
            symbols.push(symbol);
            proof {
                assert(symbols@.map_values(|s: ImportedSymbol| s@) =~= current.symbols.push(
                    symbol_of(model[i as int]),
                ));
            }
        } else {
            done.push(ImportDescriptor { module_name: module, symbols });
            module = entry.0.clone();
            symbols = Vec::new();
            symbols.push(symbol);
            proof {
                assert(done@.map_values(|d: ImportDescriptor| d@) =~= shown.push(current));
                assert(symbols@.map_values(|s: ImportedSymbol| s@) =~= seq![
                    symbol_of(model[i as int]),
                ]);
            }
        }
        i += 1;
    }
    proof {
        assert(model.take(flat.len() as int) =~= model);
    }
    let ghost shown = done@.map_values(|d: ImportDescriptor| d@);
    done.push(ImportDescriptor { module_name: module, symbols });
    proof {
        assert(done@.map_values(|d: ImportDescriptor| d@) =~= shown.push(done@.last()@));
    }
    done
}

/// Validates a decoded image and builds its descriptor. The source path is
/// left empty.
pub fn describe(raw: &RawImage) -> (r: Result<ImageDescriptor, ParseError>)
    ensures
        match r {
            Ok(d) => describe_spec(raw@) == Ok::<ImageModel, ParseError>(d@) && d.wf(),
            Err(e) => describe_spec(raw@) == Err::<ImageModel, ParseError>(e),
        },
{
    let (base, image_size, headers_size) = match raw.extent {
        None => {
            return Err(ParseError::MissingOptionalHeader);
        },
        Some(extent) => extent,
    };
    if raw.entry >= image_size {
        return Err(ParseError::MalformedSectionTable);
    }
    let ghost wanted = raw.sections@.map_values(|s: ([u8; 8], u32, u32, u32, u32)| section_of(s));
    let mut sections: Vec<Section> = Vec::new();
    let mut i: usize = 0;
    while i < raw.sections.len()
        invariant
            i <= raw.sections.len(),
            raw.extent == Some((base, image_size, headers_size)),
            raw.entry < image_size,
            wanted == raw.sections@.map_values(|s: ([u8; 8], u32, u32, u32, u32)| section_of(s)),
            sections@ == wanted.take(i as int),
            forall|k: int| 0 <= k < i ==> section_fits(#[trigger] wanted[k], image_size),
        decreases raw.sections.len() - i,
    {
        let entry = &raw.sections[i];
        let section = Section {
            name: entry.0,
            virtual_address: entry.1,
            raw_offset: entry.2,
            raw_size: entry.3,
            permissions: SectionPermissions::from_characteristics(entry.4),
        };
        assert(section == wanted[i as int]);
        if section.virtual_address as u64 + section.raw_size as u64 > image_size as u64 {
            assert(!section_fits(wanted[i as int], image_size));
            return Err(ParseError::MalformedSectionTable);
        }
        sections.push(section);
        assert(sections@ =~= wanted.take(i + 1));
        i += 1;
    }
    assert(sections@ =~= wanted);
    let imports = collect_imports(&raw.imports);
    Ok(
        ImageDescriptor {
            path: String::new(),
            machine: MachineArch::from_machine(raw.machine),
            is_64_bit: match MachineArch::from_machine(raw.machine) {
                MachineArch::X86_64 => true,
                MachineArch::X86 => false,
                MachineArch::Unknown => raw.is_64,
            },
            wide_slots: raw.is_64,
            base_address: base,
            image_size,
            headers_size,
            entry_rva: raw.entry,
            sections,
            imports,
        },
    )
}

/// The error that stands for a decoding fault.
pub fn error_of_fault(fault: RawFault) -> (e: ParseError)
    ensures
        e == fault_error(fault),
{
    match fault {
        RawFault::BadMagic => ParseError::BadMagic,
        RawFault::Malformed => ParseError::MalformedSectionTable,
        RawFault::ReadFailed => ParseError::Truncated,
    }
}

/// Checks the two signatures of a buffer, with every offset held against the
/// length of the buffer before it is used.
pub fn check_signatures(bytes: &[u8]) -> (fault: Option<ParseError>)
    ensures
        fault == signature_fault(bytes@),
{
    if bytes.len() < DOS_HEADER_SIZE {
        return Some(ParseError::Truncated);
    }
    if bytes[0] != 0x4D || bytes[1] != 0x5A {
        return Some(ParseError::BadMagic);
    }
    let at: u64 = bytes[PE_POINTER_OFFSET] as u64 + bytes[PE_POINTER_OFFSET + 1] as u64 * 0x100
        + bytes[PE_POINTER_OFFSET + 2] as u64 * 0x1_0000 + bytes[PE_POINTER_OFFSET + 3] as u64
        * 0x100_0000;
    if at + 4 > bytes.len() as u64 {
        return Some(ParseError::Truncated);
    }
    let at: usize = at as usize;
    if bytes[at] != 0x50 || bytes[at + 1] != 0x45 || bytes[at + 2] != 0 || bytes[at + 3] != 0 {
        return Some(ParseError::BadMagic);
    }
    None
}

/// Parses the container header, section table, entry point and import
/// directory of a guest image.
pub fn parse(bytes: &[u8]) -> (r: Result<ImageDescriptor, ParseError>)
    ensures
        match r {
            Ok(d) => parse_spec(bytes@) == Ok::<ImageModel, ParseError>(d@) && d.wf(),
            Err(e) => parse_spec(bytes@) == Err::<ImageModel, ParseError>(e),
        },
{
    match check_signatures(bytes) {
        Some(e) => {
            return Err(e);
        },
        None => {},
    }
    match read_image(bytes) {
        Err(fault) => Err(error_of_fault(fault)),
        Ok(raw) => describe(&raw),
    }
}

/// Parses a guest image and returns its imports, grouped by module.
pub fn extract_imports(bytes: &[u8]) -> (r: Result<Vec<ImportDescriptor>, ParseError>)
    ensures
        match r {
            Ok(imports) => extract_imports_spec(bytes@) == Ok::<Seq<ImportModel>, ParseError>(
                imports@.map_values(|d: ImportDescriptor| d@),
            ),
            Err(e) => extract_imports_spec(bytes@) == Err::<Seq<ImportModel>, ParseError>(e),
        },
{
    match parse(bytes) {
        Err(e) => Err(e),
        Ok(image) => Ok(image.imports),
    }
}

/// The machine field alone decides the architecture and bitness reported:
/// `0x8664` gives x86_64 and 64-bit, `0x014c` gives x86 and 32-bit, any other
/// value gives Unknown. Whether an image is accepted does not depend on the
/// machine field.
pub proof fn lemma_machine_field_decides(raw: RawModel)
    ensures
        describe_spec(raw) matches Ok(image) ==> {
            &&& raw.machine == 0x8664 ==> image.machine == MachineArch::X86_64 && image.is_64_bit
            &&& raw.machine == 0x014c ==> image.machine == MachineArch::X86 && !image.is_64_bit
            &&& raw.machine != 0x8664 && raw.machine != 0x014c ==> image.machine
                == MachineArch::Unknown
        },
        forall|machine: u16|
            (#[trigger] describe_spec(RawModel { machine, ..raw })).is_ok() == describe_spec(
                raw,
            ).is_ok(),
{
}

/// Sections round-trip: an accepted image has as many sections as the section
/// table, and each keeps the virtual address, raw offset and raw size that
/// the table states.
pub proof fn lemma_sections_round_trip(raw: RawModel)
    ensures
        describe_spec(raw) matches Ok(image) ==> {
            &&& image.sections.len() == raw.sections.len()
            &&& forall|i: int|
                0 <= i < image.sections.len() ==> {
                    &&& (#[trigger] image.sections[i]).name == raw.sections[i].0
                    &&& image.sections[i].virtual_address == raw.sections[i].1
                    &&& image.sections[i].raw_offset == raw.sections[i].2
                    &&& image.sections[i].raw_size == raw.sections[i].3
                }
        },
{
}

/// The entry point of every accepted image lies strictly inside the image, and
/// an image whose entry point does not is refused.
pub proof fn lemma_entry_inside_image(raw: RawModel)
    ensures
        describe_spec(raw) matches Ok(image) ==> image.entry_rva < image.image_size && image.wf(),
        raw.extent matches Some(extent) ==> (raw.entry >= extent.1 ==> describe_spec(raw)
            == Err::<ImageModel, ParseError>(ParseError::MalformedSectionTable)),
{
}

/// Every image that parses satisfies the invariant of a descriptor.
pub proof fn lemma_parsed_image_is_wf(bytes: Seq<u8>)
    ensures
        parse_spec(bytes) matches Ok(image) ==> image.wf(),
{
    if signature_fault(bytes).is_none() {
        match pe_fields(bytes) {
            Ok(raw) => {
                lemma_entry_inside_image(raw);
            },
            Err(_) => {},
        }
    }
}

/// The width of the import slots follows the form of the optional header and
/// not the machine field: an accepted image has wide slots exactly if its
/// header is of the 64-bit form.
pub proof fn lemma_slot_width_follows_header(raw: RawModel)
    ensures
        describe_spec(raw) matches Ok(image) ==> image.wide_slots == raw.is_64,
{
}

} // verus!
