use pancho::context::{ContextError, ExecutionContext, StackRegion, DEFAULT_STACK_SIZE, GUARD_SIZE};
use pancho::image::{
    check_signatures, describe, extract_imports, parse, MachineArch, ParseError, RawImage,
};
use pancho::linker::{CoreShims, SymbolicLinker};
use pancho::loader::{get_import_table, load_executable, map_pe_to_memory, LoadError};
use pancho::signals::{
    FaultKind, FaultRecord, FaultTranslator, RecoveryDecision, SignalNumbers, TranslatorAction,
    TranslatorEvent, TranslatorState, EXCEPTION_ACCESS_VIOLATION, EXCEPTION_ILLEGAL_INSTRUCTION,
    EXCEPTION_IN_PAGE_ERROR,
};
use pancho::vmm::{
    MapOutcome, MapRequest, Protection, ProtectionSpan, VirtualMemoryManager, VmmError,
    TEB_ADDRESS, TEB_SIZE,
};

const CODE: u32 = 0x6000_0020;
const DATA: u32 = 0xC000_0040;

struct SectionSpec {
    name: &'static [u8],
    virtual_address: u32,
    raw_offset: u32,
    raw_size: u32,
    characteristics: u32,
    fill: u8,
}

struct ImageSpec {
    machine: u16,
    wide: bool,
    optional_header: bool,
    base: u64,
    image_size: u32,
    entry: u32,
    sections: Vec<SectionSpec>,
    import: Option<(&'static str, &'static str)>,
}

fn put16(bytes: &mut [u8], at: usize, value: u16) {
    bytes[at..at + 2].copy_from_slice(&value.to_le_bytes());
}

fn put32(bytes: &mut [u8], at: usize, value: u32) {
    bytes[at..at + 4].copy_from_slice(&value.to_le_bytes());
}

fn put64(bytes: &mut [u8], at: usize, value: u64) {
    bytes[at..at + 8].copy_from_slice(&value.to_le_bytes());
}

fn text_section() -> SectionSpec {
    SectionSpec {
        name: b".text",
        virtual_address: 0x1000,
        raw_offset: 0x200,
        raw_size: 0x200,
        characteristics: CODE,
        fill: 0x90,
    }
}

fn import_section() -> SectionSpec {
    SectionSpec {
        name: b".idata",
        virtual_address: 0x2000,
        raw_offset: 0x400,
        raw_size: 0x200,
        characteristics: DATA,
        fill: 0,
    }
}

fn minimal() -> ImageSpec {
    ImageSpec {
        machine: 0x8664,
        wide: true,
        optional_header: true,
        base: 0x1_4000_0000,
        image_size: 0x10000,
        entry: 0x1000,
        sections: vec![text_section()],
        import: None,
    }
}

fn importing(module: &'static str, symbol: &'static str) -> ImageSpec {
    let mut spec = minimal();
    spec.sections.push(import_section());
    spec.import = Some((module, symbol));
    spec
}

fn build(spec: &ImageSpec) -> Vec<u8> {
    let mut end: usize = 0x200;
    for s in &spec.sections {
        if s.raw_size > 0 {
            end = end.max((s.raw_offset + s.raw_size) as usize);
        }
    }
    let mut bytes = vec![0u8; end];
    bytes[0] = b'M';
    bytes[1] = b'Z';
    put32(&mut bytes, 0x3c, 0x40);
    bytes[0x40..0x44].copy_from_slice(b"PE\0\0");
    let coff = 0x44;
    let optional_size: usize = if !spec.optional_header {
        0
    } else if spec.wide {
        240
    } else {
        224
    };
    put16(&mut bytes, coff, spec.machine);
    put16(&mut bytes, coff + 2, spec.sections.len() as u16);
    put16(&mut bytes, coff + 16, optional_size as u16);
    put16(&mut bytes, coff + 18, 0x0022);
    let opt = coff + 20;
    if spec.optional_header {
        put16(&mut bytes, opt, if spec.wide { 0x20b } else { 0x10b });
        put32(&mut bytes, opt + 16, spec.entry);
        put32(&mut bytes, opt + 20, 0x1000);
        if spec.wide {
            put64(&mut bytes, opt + 24, spec.base);
        } else {
            put32(&mut bytes, opt + 28, spec.base as u32);
        }
        put32(&mut bytes, opt + 32, 0x1000);
        put32(&mut bytes, opt + 36, 0x200);
        put32(&mut bytes, opt + 56, spec.image_size);
        put32(&mut bytes, opt + 60, 0x200);
        put16(&mut bytes, opt + 68, 3);
        let directories = if spec.wide { opt + 112 } else { opt + 96 };
        put32(&mut bytes, directories - 4, 16);
        if spec.import.is_some() {
            put32(&mut bytes, directories + 8, 0x2000);
            put32(&mut bytes, directories + 12, 40);
        }
    }
    let mut at = opt + optional_size;
    for s in &spec.sections {
        bytes[at..at + s.name.len()].copy_from_slice(s.name);
        put32(&mut bytes, at + 8, s.raw_size);
        put32(&mut bytes, at + 12, s.virtual_address);
        put32(&mut bytes, at + 16, s.raw_size);
        put32(&mut bytes, at + 20, s.raw_offset);
        put32(&mut bytes, at + 36, s.characteristics);
        at += 40;
        let from = s.raw_offset as usize;
        let to = from + s.raw_size as usize;
        if s.raw_size > 0 && to <= bytes.len() {
            for b in &mut bytes[from..to] {
                *b = s.fill;
            }
        }
    }
    if let Some((module, symbol)) = spec.import {
        let file = 0x400;
        put32(&mut bytes, file, 0x2040);
        put32(&mut bytes, file + 12, 0x2080);
        put32(&mut bytes, file + 16, 0x2060);
        put64(&mut bytes, file + 0x40, 0x20A0);
        put64(&mut bytes, file + 0x60, 0x20A0);
        bytes[file + 0x80..file + 0x80 + module.len()].copy_from_slice(module.as_bytes());
        bytes[file + 0xA2..file + 0xA2 + symbol.len()].copy_from_slice(symbol.as_bytes());
    }
    bytes
}

fn shims() -> CoreShims {
    CoreShims { get_system_info: 0x1111_0000, get_tick_count: 0x2222_0000, get_desktop_window: 0x3333_0000 }
}

fn numbers() -> SignalNumbers {
    SignalNumbers { illegal_instruction: 4, segmentation_violation: 11, bus_error: 7 }
}

#[test]
fn machine_x86_64_is_reported_as_64_bit() {
    let image = parse(&build(&minimal())).unwrap();
    assert_eq!(image.machine, MachineArch::X86_64);
    assert!(image.is_64_bit);
    assert_eq!(image.machine.name(), "x86_64");
}

#[test]
fn machine_x86_is_reported_as_32_bit() {
    let mut spec = minimal();
    spec.machine = 0x014c;
    spec.wide = false;
    spec.base = 0x40_0000;
    let image = parse(&build(&spec)).unwrap();
    assert_eq!(image.machine, MachineArch::X86);
    assert!(!image.is_64_bit);
    assert_eq!(image.machine.name(), "x86");
    assert_eq!(image.base_address, 0x40_0000);
}

#[test]
fn other_machine_is_unknown_and_still_parses() {
    let mut spec = minimal();
    spec.machine = 0xAA64;
    let image = parse(&build(&spec)).unwrap();
    assert_eq!(image.machine, MachineArch::Unknown);
    assert_eq!(image.machine.name(), "Unknown");
    assert!(image.is_64_bit);
    assert_eq!(image.sections.len(), 1);
}

#[test]
fn unknown_machine_is_not_mapped() {
    let mut spec = minimal();
    spec.machine = 0xAA64;
    let mut vmm = VirtualMemoryManager::new();
    let linker = SymbolicLinker::new(shims());
    let r = map_pe_to_memory(&build(&spec), &mut vmm, &linker, MapOutcome::Mapped(spec.base));
    assert_eq!(r.unwrap_err(), LoadError::Parse(ParseError::UnsupportedMachine));
    assert_eq!(vmm.list_regions().len(), 0);
}

#[test]
fn sections_round_trip() {
    let mut spec = minimal();
    spec.sections = vec![
        text_section(),
        SectionSpec {
            name: b".rdata",
            virtual_address: 0x3000,
            raw_offset: 0x400,
            raw_size: 0x400,
            characteristics: 0x4000_0040,
            fill: 1,
        },
        SectionSpec {
            name: b".bss",
            virtual_address: 0x5000,
            raw_offset: 0,
            raw_size: 0,
            characteristics: DATA,
            fill: 0,
        },
        SectionSpec {
            name: b".data",
            virtual_address: 0x6000,
            raw_offset: 0x800,
            raw_size: 0x200,
            characteristics: DATA,
            fill: 2,
        },
    ];
    let image = parse(&build(&spec)).unwrap();
    assert_eq!(image.sections.len(), spec.sections.len());
    for (parsed, given) in image.sections.iter().zip(spec.sections.iter()) {
        assert_eq!(parsed.virtual_address, given.virtual_address);
        assert_eq!(parsed.raw_offset, given.raw_offset);
        assert_eq!(parsed.raw_size, given.raw_size);
        assert_eq!(&parsed.name[..given.name.len()], given.name);
    }
    assert!(image.sections[0].permissions.execute);
    assert!(image.sections[0].permissions.read);
    assert!(!image.sections[0].permissions.write);
    assert!(image.sections[3].permissions.write);
    assert!(!image.sections[1].permissions.write);
}

#[test]
fn short_buffer_is_truncated() {
    assert_eq!(parse(&[]).unwrap_err(), ParseError::Truncated);
    assert_eq!(parse(&build(&minimal())[..63]).unwrap_err(), ParseError::Truncated);
    let mut bytes = build(&minimal());
    put32(&mut bytes, 0x3c, 0x1_0000);
    assert_eq!(parse(&bytes).unwrap_err(), ParseError::Truncated);
    assert_eq!(check_signatures(&bytes), Some(ParseError::Truncated));
}

#[test]
fn cut_section_table_is_truncated() {
    let bytes = build(&minimal());
    assert_eq!(parse(&bytes[..0x150]).unwrap_err(), ParseError::Truncated);
}

#[test]
fn wrong_signature_is_bad_magic() {
    let mut bytes = build(&minimal());
    bytes[0] = b'Z';
    assert_eq!(parse(&bytes).unwrap_err(), ParseError::BadMagic);
    let mut bytes = build(&minimal());
    bytes[0x41] = b'X';
    assert_eq!(parse(&bytes).unwrap_err(), ParseError::BadMagic);
    let mut bytes = build(&minimal());
    put16(&mut bytes, 0x58, 0x0777);
    assert_eq!(parse(&bytes).unwrap_err(), ParseError::BadMagic);
    assert_eq!(check_signatures(&build(&minimal())), None);
}

#[test]
fn missing_optional_header_is_reported() {
    let mut spec = minimal();
    spec.optional_header = false;
    assert_eq!(parse(&build(&spec)).unwrap_err(), ParseError::MissingOptionalHeader);
}

#[test]
fn section_beyond_image_is_malformed() {
    let mut spec = minimal();
    spec.sections[0].virtual_address = 0xFF00;
    assert_eq!(parse(&build(&spec)).unwrap_err(), ParseError::MalformedSectionTable);
    spec.sections[0].virtual_address = 0xFE00;
    assert!(parse(&build(&spec)).is_ok());
}

#[test]
fn entry_outside_image_is_rejected_before_mapping() {
    let mut spec = minimal();
    spec.entry = spec.image_size;
    let bytes = build(&spec);
    assert_eq!(parse(&bytes).unwrap_err(), ParseError::MalformedSectionTable);
    let mut vmm = VirtualMemoryManager::new();
    let linker = SymbolicLinker::new(shims());
    let r = map_pe_to_memory(&bytes, &mut vmm, &linker, MapOutcome::Mapped(spec.base));
    assert_eq!(r.unwrap_err(), LoadError::Parse(ParseError::MalformedSectionTable));
    assert!(vmm.list_regions().is_empty());
    spec.entry = spec.image_size - 1;
    assert_eq!(parse(&build(&spec)).unwrap().entry_rva, 0xFFFF);
}

#[test]
fn describe_validates_a_decoded_image() {
    let mut raw = RawImage {
        machine: 0x8664,
        extent: Some((0x1_4000_0000, 0x3000, 0x400)),
        entry: 0x1000,
        is_64: true,
        sections: vec![(*b".text\0\0\0", 0x1000, 0x400, 0x200, CODE)],
        imports: vec![
            ("KERNEL32.dll".to_string(), "GetTickCount".to_string(), 0x2060),
            ("KERNEL32.dll".to_string(), "GetSystemInfo".to_string(), 0x2068),
            ("USER32.dll".to_string(), "ORDINAL 7".to_string(), 0x2080),
            ("KERNEL32.dll".to_string(), "Sleep".to_string(), 0x2090),
        ],
    };
    let image = describe(&raw).unwrap();
    assert_eq!(image.path, "");
    assert_eq!(image.base_address, 0x1_4000_0000);
    assert_eq!(image.image_size, 0x3000);
    assert_eq!(image.headers_size, 0x400);
    assert_eq!(image.entry_rva, 0x1000);
    assert_eq!(image.imports.len(), 3);
    assert_eq!(image.imports[0].module_name, "KERNEL32.dll");
    assert_eq!(image.imports[0].symbols.len(), 2);
    assert_eq!(image.imports[0].symbols[1].name_or_ordinal, "GetSystemInfo");
    assert_eq!(image.imports[0].symbols[1].iat_slot_rva, 0x2068);
    assert_eq!(image.imports[1].module_name, "USER32.dll");
    assert_eq!(image.imports[1].symbols[0].name_or_ordinal, "ORDINAL 7");
    assert_eq!(image.imports[2].module_name, "KERNEL32.dll");
    assert_eq!(image.imports[2].symbols.len(), 1);
    raw.entry = 0x3000;
    assert_eq!(describe(&raw).unwrap_err(), ParseError::MalformedSectionTable);
    raw.entry = 0;
    raw.sections[0].1 = 0x2E01;
    assert_eq!(describe(&raw).unwrap_err(), ParseError::MalformedSectionTable);
    raw.extent = None;
    assert_eq!(describe(&raw).unwrap_err(), ParseError::MissingOptionalHeader);
}

#[test]
fn last_registration_wins() {
    let mut linker = SymbolicLinker::empty();
    assert_eq!(linker.resolve("kernel32.dll", "Sleep"), None);
    linker.register("kernel32.dll", "Sleep", 0x1000);
    linker.register("kernel32.dll", "Sleep", 0x2000);
    assert_eq!(linker.resolve("kernel32.dll", "Sleep"), Some(0x2000));
    assert_eq!(linker.function_map.len(), 1);
    linker.register("kernel32.dll", "Sleep", 0x2000);
    assert_eq!(linker.function_map.len(), 1);
    assert_eq!(linker.resolve("kernel32.dll", "Sleep"), Some(0x2000));
}

#[test]
fn resolution_ignores_case() {
    let linker = SymbolicLinker::new(shims());
    assert_eq!(linker.function_map.len(), 3);
    assert_eq!(linker.resolve("kernel32.dll", "GetSystemInfo"), Some(0x1111_0000));
    assert_eq!(linker.resolve("KERNEL32.DLL", "GetTickCount"), Some(0x2222_0000));
    assert_eq!(linker.resolve("User32.dll", "getdesktopwindow"), Some(0x3333_0000));
    assert_eq!(linker.resolve("user32.dll", "GetTickCount"), None);
    assert_eq!(linker.resolve("kernel32", "GetTickCount"), None);
}

#[test]
fn overlapping_reservation_is_refused() {
    let mut vmm = VirtualMemoryManager::new();
    assert_eq!(vmm.reserve_address_space(0x10000, 0x2000, "first", MapOutcome::Mapped(0x10000)), Ok(()));
    assert_eq!(vmm.list_regions().len(), 1);
    let second = vmm.reserve_address_space(0x11000, 0x2000, "second", MapOutcome::Mapped(0x11000));
    assert_eq!(second, Err(VmmError::AlreadyReserved));
    assert_eq!(vmm.list_regions().len(), 1);
    assert_eq!(vmm.list_regions()[0].label, "first");
    assert_eq!(vmm.reserve_address_space(0xF000, 0x1001, "third", MapOutcome::Mapped(0xF000)), Err(VmmError::AlreadyReserved));
    assert_eq!(vmm.reserve_address_space(0x12000, 0x1000, "fourth", MapOutcome::Mapped(0x12000)), Ok(()));
    assert_eq!(vmm.reserve_address_space(0xF000, 0x1000, "fifth", MapOutcome::Mapped(0xF000)), Ok(()));
    assert_eq!(vmm.list_regions().len(), 3);
}

#[test]
fn reservation_needs_the_requested_address() {
    let mut vmm = VirtualMemoryManager::new();
    assert_eq!(vmm.plan_reservation(0x10000, 0x2000), Ok(MapRequest { address_hint: 0x10000, length: 0x2000, protection: Protection::NoAccess }));
    assert_eq!(vmm.reserve_address_space(0x10000, 0x2000, "a", MapOutcome::Refused), Err(VmmError::OsRejected));
    assert_eq!(vmm.reserve_address_space(0x10000, 0x2000, "a", MapOutcome::Mapped(0x20000)), Err(VmmError::OsRejected));
    assert_eq!(vmm.reserve_address_space(0x10000, 0, "a", MapOutcome::Mapped(0x10000)), Err(VmmError::OsRejected));
    assert_eq!(vmm.reserve_address_space(u64::MAX, 2, "a", MapOutcome::Mapped(u64::MAX)), Err(VmmError::OsRejected));
    assert_eq!(vmm.plan_reservation(u64::MAX, 2), Err(VmmError::OsRejected));
    assert!(vmm.list_regions().is_empty());
    assert_eq!(vmm.reserve_address_space(u64::MAX, 1, "top", MapOutcome::Mapped(u64::MAX)), Ok(()));
    let region = &vmm.list_regions()[0];
    assert_eq!(region.start, u64::MAX);
    assert_eq!(region.size, 1);
    assert_eq!(region.protection, Protection::NoAccess);
    assert!(region.contents.is_empty());
    assert_eq!(vmm.plan_reservation(u64::MAX, 1), Err(VmmError::AlreadyReserved));
}

#[test]
fn reservation_over_the_teb_is_refused() {
    let mut vmm = VirtualMemoryManager::new();
    assert_eq!(vmm.setup_teb_space(MapOutcome::Mapped(TEB_ADDRESS)), Ok(0x7ff0_0000_0000));
    assert_eq!(vmm.list_regions().len(), 1);
    assert_eq!(vmm.list_regions()[0].label, "TEB");
    assert_eq!(vmm.list_regions()[0].size, 4096);
    let r = vmm.reserve_address_space(TEB_ADDRESS, 0x10000, "PE_IMAGE", MapOutcome::Mapped(TEB_ADDRESS));
    assert_eq!(r, Err(VmmError::AlreadyReserved));
    let r = vmm.reserve_address_space(TEB_ADDRESS + TEB_SIZE as u64 - 1, 1, "x", MapOutcome::Mapped(TEB_ADDRESS + 4095));
    assert_eq!(r, Err(VmmError::AlreadyReserved));
    assert_eq!(vmm.setup_teb_space(MapOutcome::Mapped(TEB_ADDRESS)), Err(VmmError::AlreadyReserved));
    assert_eq!(vmm.list_regions().len(), 1);
    assert_eq!(vmm.list_regions()[0].start, TEB_ADDRESS);
    assert_eq!(vmm.list_regions()[0].label, "TEB");
}

#[test]
fn minimal_image_loads() {
    let spec = minimal();
    let bytes = build(&spec);
    let info = load_executable("C:\\games\\demo.exe", &bytes).unwrap();
    assert_eq!(info.path, "C:\\games\\demo.exe");
    assert_eq!(info.machine, "x86_64");
    assert_eq!(info.base_address, 0x1_4000_0000);
    assert_eq!(info.sections, 1);
    assert_eq!(info.entry_point, 0x1000);
    assert!(info.is_64_bit);

    let mut vmm = VirtualMemoryManager::new();
    let linker = SymbolicLinker::new(shims());
    let mapped = map_pe_to_memory(&bytes, &mut vmm, &linker, MapOutcome::Mapped(0x1_4000_0000)).unwrap();
    assert_eq!(mapped.region, 0);
    assert_eq!(mapped.entry_address, 0x1_4000_1000);
    assert_eq!(mapped.report.resolved_count(), 0);
    assert_eq!(mapped.report.unresolved_count(), 0);
    let region = &vmm.list_regions()[0];
    assert_eq!(region.start, 0x1_4000_0000);
    assert_eq!(region.size, 0x10000);
    assert_eq!(region.label, "PE_IMAGE");
    assert_eq!(region.protection, Protection::ReadWrite);
    assert_eq!(region.contents.len(), 0x10000);
    assert_eq!(&region.contents[..0x200], &bytes[..0x200]);
    assert!(region.contents[0x200..0x1000].iter().all(|b| *b == 0));
    assert!(region.contents[0x1000..0x1200].iter().all(|b| *b == 0x90));
    assert!(region.contents[0x1200..].iter().all(|b| *b == 0));
    assert_eq!(region.spans, vec![ProtectionSpan { offset: 0x1000, length: 0x200, protection: Protection::ReadExecute }]);
    assert_eq!(vmm.protection_at(mapped.entry_address), Some(Protection::ReadExecute));
    assert_eq!(vmm.protection_at(0x1_4000_0000), Some(Protection::ReadWrite));
    assert_eq!(vmm.protection_at(0x1_4000_11FF), Some(Protection::ReadExecute));
    assert_eq!(vmm.protection_at(0x1_4000_1200), Some(Protection::ReadWrite));
    assert_eq!(vmm.protection_at(0x1_4001_0000), None);

    let stack = StackRegion::allocate(DEFAULT_STACK_SIZE, MapOutcome::Mapped(0x7000_0000)).unwrap();
    let ctx = ExecutionContext::build(mapped.entry_address, stack, &vmm).unwrap();
    assert_eq!(ctx.entry_point, 0x1_4000_1000);
}

#[test]
fn empty_sections_are_skipped() {
    let mut spec = minimal();
    spec.sections.push(SectionSpec {
        name: b".bss",
        virtual_address: 0x3000,
        raw_offset: 0xFFFF_0000,
        raw_size: 0,
        characteristics: DATA,
        fill: 0,
    });
    spec.sections.push(SectionSpec {
        name: b".data",
        virtual_address: 0x1100,
        raw_offset: 0x400,
        raw_size: 0x200,
        characteristics: DATA,
        fill: 7,
    });
    let bytes = build(&spec);
    let mut vmm = VirtualMemoryManager::new();
    let linker = SymbolicLinker::new(shims());
    let mapped = map_pe_to_memory(&bytes, &mut vmm, &linker, MapOutcome::Mapped(spec.base)).unwrap();
    let region = &vmm.list_regions()[mapped.region];
    assert!(region.contents[0x1000..0x1100].iter().all(|b| *b == 0x90));
    assert!(region.contents[0x1100..0x1300].iter().all(|b| *b == 7));
    assert!(region.contents[0x1300..].iter().all(|b| *b == 0));
    assert_eq!(
        region.spans,
        vec![
            ProtectionSpan { offset: 0x1000, length: 0x200, protection: Protection::ReadExecute },
            ProtectionSpan { offset: 0x1100, length: 0x200, protection: Protection::ReadWrite },
        ]
    );
    assert_eq!(vmm.protection_at(spec.base + 0x10FF), Some(Protection::ReadExecute));
    assert_eq!(vmm.protection_at(spec.base + 0x1100), Some(Protection::ReadWrite));
    assert_eq!(vmm.protection_at(spec.base + 0x3000), Some(Protection::ReadWrite));
}

#[test]
fn unmapped_import_directory_is_malformed() {
    let mut bytes = build(&importing("KERNEL32.dll", "GetTickCount"));
    put32(&mut bytes, 0xD0, 0x9000);
    assert_eq!(parse(&bytes).unwrap_err(), ParseError::MalformedSectionTable);
    assert_eq!(extract_imports(&bytes).unwrap_err(), ParseError::MalformedSectionTable);
    assert_eq!(get_import_table(&bytes).unwrap_err(), ParseError::MalformedSectionTable);
    assert_eq!(load_executable("x.exe", &bytes).unwrap_err(), ParseError::MalformedSectionTable);
}

#[test]
fn refused_mapping_fails_the_load() {
    let bytes = build(&minimal());
    let mut vmm = VirtualMemoryManager::new();
    vmm.setup_teb_space(MapOutcome::Mapped(TEB_ADDRESS)).unwrap();
    let linker = SymbolicLinker::new(shims());
    let r = map_pe_to_memory(&bytes, &mut vmm, &linker, MapOutcome::Refused);
    assert_eq!(r.unwrap_err(), LoadError::Vmm(VmmError::OsRejected));
    let r = map_pe_to_memory(&bytes, &mut vmm, &linker, MapOutcome::Mapped(0x1_5000_0000));
    assert_eq!(r.unwrap_err(), LoadError::Vmm(VmmError::OsRejected));
    assert_eq!(vmm.list_regions().len(), 1);
    map_pe_to_memory(&bytes, &mut vmm, &linker, MapOutcome::Mapped(0x1_4000_0000)).unwrap();
    let r = map_pe_to_memory(&bytes, &mut vmm, &linker, MapOutcome::Mapped(0x1_4000_0000));
    assert_eq!(r.unwrap_err(), LoadError::Vmm(VmmError::AlreadyReserved));
    assert_eq!(vmm.list_regions().len(), 2);
}

#[test]
fn section_beyond_source_fails_the_load_and_releases_the_region() {
    let mut spec = minimal();
    spec.sections[0].raw_offset = 0x400;
    let mut bytes = build(&spec);
    bytes.truncate(0x500);
    assert!(parse(&bytes).is_ok());
    let mut vmm = VirtualMemoryManager::new();
    let linker = SymbolicLinker::new(shims());
    let r = map_pe_to_memory(&bytes, &mut vmm, &linker, MapOutcome::Mapped(spec.base));
    assert_eq!(r.unwrap_err(), LoadError::Vmm(VmmError::OutOfBounds));
    assert!(vmm.list_regions().is_empty());
}

#[test]
fn unresolved_import_does_not_fail_the_load() {
    let bytes = build(&importing("nosuch.dll", "NoSuchFunction"));
    let mut vmm = VirtualMemoryManager::new();
    let linker = SymbolicLinker::new(shims());
    let mapped = map_pe_to_memory(&bytes, &mut vmm, &linker, MapOutcome::Mapped(0x1_4000_0000)).unwrap();
    assert_eq!(mapped.report.unresolved_count(), 1);
    assert_eq!(mapped.report.resolved_count(), 0);
    assert_eq!(mapped.report.unresolved[0].dll, "nosuch.dll");
    assert_eq!(mapped.report.unresolved[0].function, "NoSuchFunction");
    assert_eq!(mapped.report.unresolved[0].address, 0);
    let region = &vmm.list_regions()[0];
    assert_eq!(&region.contents[0x2060..0x2068], &0x20A0u64.to_le_bytes());
}

#[test]
fn resolved_import_is_patched_into_its_slot() {
    let bytes = build(&importing("KERNEL32.dll", "GetTickCount"));
    let imports = extract_imports(&bytes).unwrap();
    assert_eq!(imports.len(), 1);
    assert_eq!(imports[0].module_name, "KERNEL32.dll");
    assert_eq!(imports[0].symbols.len(), 1);
    assert_eq!(imports[0].symbols[0].name_or_ordinal, "GetTickCount");
    assert_eq!(imports[0].symbols[0].iat_slot_rva, 0x2060);
    let table = get_import_table(&bytes).unwrap();
    assert_eq!(table.len(), 1);
    assert_eq!(table[0].dll, "KERNEL32.dll");
    assert_eq!(table[0].function, "GetTickCount");
    assert_eq!(table[0].address, 0);

    let mut vmm = VirtualMemoryManager::new();
    let mut linker = SymbolicLinker::new(shims());
    linker.register("kernel32.dll", "GetTickCount", 0x0000_7FFF_1234_5678);
    let mapped = map_pe_to_memory(&bytes, &mut vmm, &linker, MapOutcome::Mapped(0x1_4000_0000)).unwrap();
    assert_eq!(mapped.report.resolved_count(), 1);
    assert_eq!(mapped.report.unresolved_count(), 0);
    assert_eq!(mapped.report.resolved[0].dll, "KERNEL32.dll");
    assert_eq!(mapped.report.resolved[0].function, "GetTickCount");
    assert_eq!(mapped.report.resolved[0].address, 0x0000_7FFF_1234_5678);
    let region = &vmm.list_regions()[0];
    assert_eq!(&region.contents[0x2060..0x2068], &[0x78, 0x56, 0x34, 0x12, 0xFF, 0x7F, 0, 0]);
    assert_eq!(&region.contents[0x2068..0x2070], &[0u8; 8]);
    assert_eq!(&region.contents[0x2040..0x2048], &0x20A0u64.to_le_bytes());
    assert_eq!(region.spans.len(), 2);
    assert_eq!(region.spans[1], ProtectionSpan { offset: 0x2000, length: 0x200, protection: Protection::ReadWrite });
}

#[test]
fn slot_width_follows_the_header_form() {
    let mut spec = importing("KERNEL32.dll", "GetTickCount");
    spec.wide = false;
    spec.base = 0x40_0000;
    let bytes = build(&spec);
    let image = parse(&bytes).unwrap();
    assert_eq!(image.machine, MachineArch::X86_64);
    assert!(image.is_64_bit);
    assert!(!image.wide_slots);
    assert_eq!(image.imports[0].symbols[0].iat_slot_rva, 0x2060);
    let mut vmm = VirtualMemoryManager::new();
    let mut linker = SymbolicLinker::new(shims());
    linker.register("kernel32.dll", "GetTickCount", 0x1234_5678);
    let mapped = map_pe_to_memory(&bytes, &mut vmm, &linker, MapOutcome::Mapped(0x40_0000)).unwrap();
    assert_eq!(mapped.report.resolved_count(), 1);
    let region = &vmm.list_regions()[0];
    assert_eq!(&region.contents[0x2060..0x2064], &[0x78, 0x56, 0x34, 0x12]);
    assert_eq!(&region.contents[0x2064..0x2068], &[0u8; 4]);
    linker.register("kernel32.dll", "GetTickCount", 0x1_0000_0000);
    let mut vmm = VirtualMemoryManager::new();
    let mapped = map_pe_to_memory(&bytes, &mut vmm, &linker, MapOutcome::Mapped(0x40_0000)).unwrap();
    assert_eq!(mapped.report.resolved_count(), 0);
    assert_eq!(mapped.report.unresolved_count(), 1);
    assert_eq!(&vmm.list_regions()[0].contents[0x2060..0x2068], &0x20A0u64.to_le_bytes());
    assert!(parse(&build(&importing("KERNEL32.dll", "GetTickCount"))).unwrap().wide_slots);
}

#[test]
fn link_image_reports_what_cannot_be_patched() {
    let bytes = build(&importing("KERNEL32.dll", "GetTickCount"));
    let image = parse(&bytes).unwrap();
    let linker = SymbolicLinker::new(shims());
    let mut vmm = VirtualMemoryManager::new();
    vmm.reserve_address_space(0x1000, 0x10000, "unpopulated", MapOutcome::Mapped(0x1000)).unwrap();
    let mut region = vmm.teardown().pop().unwrap();
    let report = linker.link_image(&image, &mut region);
    assert_eq!(report.resolved_count(), 0);
    assert_eq!(report.unresolved_count(), 1);
    assert!(region.contents.is_empty());
    region.contents = vec![0xEE; 0x2064];
    let report = linker.link_image(&image, &mut region);
    assert_eq!(report.unresolved_count(), 1);
    assert!(region.contents.iter().all(|b| *b == 0xEE));
    region.contents = vec![0xEE; 0x2068];
    let report = linker.link_image(&image, &mut region);
    assert_eq!(report.resolved_count(), 1);
    assert_eq!(&region.contents[0x2060..], &0x2222_0000u64.to_le_bytes());
    assert!(region.contents[..0x2060].iter().all(|b| *b == 0xEE));
}

#[test]
fn copy_and_finalize_check_their_region() {
    let spec = minimal();
    let bytes = build(&spec);
    let image = parse(&bytes).unwrap();
    let mut vmm = VirtualMemoryManager::new();
    assert_eq!(vmm.copy_sections(0, &image, &bytes), Err(VmmError::NoSuchRegion));
    assert_eq!(vmm.finalize_protections(0, &image), Err(VmmError::NoSuchRegion));
    vmm.reserve_address_space(0x1000, 0x8000, "small", MapOutcome::Mapped(0x1000)).unwrap();
    assert_eq!(vmm.copy_sections(0, &image, &bytes), Err(VmmError::OutOfBounds));
    vmm.reserve_address_space(0x10_0000, 0x10000, "image", MapOutcome::Mapped(0x10_0000)).unwrap();
    assert_eq!(vmm.finalize_protections(1, &image), Err(VmmError::NotPopulated));
    assert_eq!(vmm.copy_sections(1, &image, &bytes[..0x300]), Err(VmmError::OutOfBounds));
    assert!(vmm.list_regions()[1].contents.is_empty());
    assert_eq!(vmm.copy_sections(1, &image, &bytes), Ok(()));
    assert_eq!(vmm.list_regions()[1].protection, Protection::ReadWrite);
    assert_eq!(vmm.list_regions()[0].protection, Protection::NoAccess);
    assert_eq!(vmm.protection_at(0x10_1000), Some(Protection::ReadWrite));
    assert_eq!(vmm.finalize_protections(1, &image), Ok(()));
    assert_eq!(vmm.protection_at(0x10_1000), Some(Protection::ReadExecute));
    assert_eq!(vmm.protection_at(0x1000), Some(Protection::NoAccess));
    let released = vmm.teardown();
    assert_eq!(released.len(), 2);
    assert_eq!(released[0].label, "small");
    assert!(vmm.list_regions().is_empty());
    assert_eq!(vmm.protection_at(0x10_1000), None);
}

#[test]
fn context_needs_executable_entry_and_a_stack() {
    let bytes = build(&minimal());
    let mut vmm = VirtualMemoryManager::new();
    let linker = SymbolicLinker::new(shims());
    let mapped = map_pe_to_memory(&bytes, &mut vmm, &linker, MapOutcome::Mapped(0x1_4000_0000)).unwrap();
    assert_eq!(StackRegion::mapping_length(0x10000), Some(0x11000));
    assert_eq!(StackRegion::mapping_length(0), None);
    assert_eq!(StackRegion::mapping_length(usize::MAX), None);
    assert_eq!(StackRegion::allocate(0, MapOutcome::Mapped(0x7000_0000)), Err(ContextError::EmptyStack));
    assert_eq!(StackRegion::allocate(0x10000, MapOutcome::Refused), Err(ContextError::StackUnavailable));
    let stack = StackRegion::allocate(0x10000, MapOutcome::Mapped(0x7000_0000)).unwrap();
    assert_eq!(stack, StackRegion { guard_base: 0x7000_0000, base: 0x7000_0000 + GUARD_SIZE, size: 0x10000 });
    let empty = StackRegion { guard_base: 0x7000_0000, base: 0x7000_1000, size: 0 };
    let tiny = StackRegion { guard_base: 0x7000_0000, base: 0x7000_1000, size: 15 };
    let unaligned = StackRegion { guard_base: 0x7000_0000, base: 0x7000_1001, size: 30 };
    let sixteen = StackRegion { guard_base: 0x7000_0000, base: 0x7000_1000, size: 16 };
    assert_eq!(ExecutionContext::build(mapped.entry_address, empty, &vmm), Err(ContextError::EmptyStack));
    assert_eq!(ExecutionContext::build(mapped.entry_address, tiny, &vmm), Err(ContextError::StackUnavailable));
    assert_eq!(ExecutionContext::build(mapped.entry_address, unaligned, &vmm), Err(ContextError::StackUnavailable));
    assert_eq!(
        ExecutionContext::build(mapped.entry_address, sixteen, &vmm),
        Ok(ExecutionContext { entry_point: 0x1_4000_1000, stack_base: 0x7000_1000, stack_size: 16 })
    );
    assert_eq!(ExecutionContext::build(0x1_4000_0000, stack, &vmm), Err(ContextError::InvalidEntry));
    assert_eq!(ExecutionContext::build(0x1_4000_1200, stack, &vmm), Err(ContextError::InvalidEntry));
    assert_eq!(ExecutionContext::build(0x9_0000_0000, stack, &vmm), Err(ContextError::InvalidEntry));
    let ctx = ExecutionContext::build(mapped.entry_address, stack, &vmm).unwrap();
    assert_eq!(ctx, ExecutionContext { entry_point: 0x1_4000_1000, stack_base: 0x7000_1000, stack_size: 0x10000 });
    assert_eq!(ExecutionContext::new(0x1_4000_1000, stack), ctx);
}

#[test]
fn transfer_needs_the_translator_installed() {
    let context = || ExecutionContext { entry_point: 0x1_4000_1000, stack_base: 0x7000_1000, stack_size: 0x10000 };
    let mut translator = FaultTranslator::new(numbers());
    assert_eq!(context().prepare_transfer(&translator), Err(ContextError::TranslatorNotReady));
    translator.step(TranslatorEvent::Install);
    let registers = context().prepare_transfer(&translator).unwrap();
    assert_eq!(registers.rip, 0x1_4000_1000);
    assert_eq!(registers.rsp, 0x7001_0FF0);
    assert_eq!(Some(registers), context().initial_registers());
    let small = ExecutionContext { entry_point: 1, stack_base: 0x1008, stack_size: 16 };
    assert_eq!(small.prepare_transfer(&translator), Err(ContextError::StackUnavailable));
    let sixteen = ExecutionContext { entry_point: 1, stack_base: 0x1000, stack_size: 16 };
    assert_eq!(sixteen.prepare_transfer(&translator).unwrap().rsp, 0x1000);
    translator.step(TranslatorEvent::Signal { number: 11, address: 0 });
    assert_eq!(context().prepare_transfer(&translator), Err(ContextError::TranslatorNotReady));
    translator.step(TranslatorEvent::Logged);
    assert_eq!(context().prepare_transfer(&translator), Err(ContextError::TranslatorNotReady));
}

#[test]
fn descriptor_takes_its_path() {
    let image = parse(&build(&minimal())).unwrap();
    assert_eq!(image.path, "");
    let image = image.at_path("/games/demo.exe");
    assert_eq!(image.path, "/games/demo.exe");
    assert_eq!(image.base_address, 0x1_4000_0000);
    assert_eq!(image.sections.len(), 1);
    assert_eq!(image.entry_rva, 0x1000);
}

#[test]
fn transfer_registers_are_clean_and_aligned() {
    let ctx = ExecutionContext { entry_point: 0x1_4000_1000, stack_base: 0x7000_1000, stack_size: 0x20_0000 };
    let r = ctx.initial_registers().unwrap();
    assert_eq!(r.rip, 0x1_4000_1000);
    assert_eq!(r.rsp, 0x7000_1000 + 0x20_0000 - 16);
    assert_eq!(
        [r.rbp, r.rax, r.rbx, r.rcx, r.rdx, r.rsi, r.rdi, r.r8, r.r9, r.r10, r.r11, r.r12, r.r13, r.r14, r.r15],
        [0usize; 15]
    );
    let odd = ExecutionContext { entry_point: 1, stack_base: 0x1003, stack_size: 0x105 };
    assert_eq!(odd.initial_registers().unwrap().rsp, 0x10F0);
    let page = ExecutionContext { entry_point: 1, stack_base: 0x1000, stack_size: 16 };
    assert_eq!(page.initial_registers().unwrap().rsp, 0x1000);
    assert_eq!(StackRegion::usable(0x1000, 16), true);
    assert_eq!(StackRegion::usable(0x1000, 15), false);
    assert_eq!(StackRegion::usable(0x1001, 16), false);
    assert_eq!(StackRegion::usable(0x1001, 30), false);
    assert_eq!(StackRegion::usable(0x1001, 31), true);
    assert_eq!(StackRegion::usable(0x100F, 17), true);
    assert_eq!(StackRegion::usable(usize::MAX - 15, 16), false);
    let small = ExecutionContext { entry_point: 1, stack_base: 0x1001, stack_size: 30 };
    assert_eq!(small.initial_registers(), None);
    let aligned = ExecutionContext { entry_point: 1, stack_base: 0x1000, stack_size: 31 };
    assert_eq!(aligned.initial_registers().unwrap().rsp, 0x1000);
    let least = ExecutionContext { entry_point: 1, stack_base: 0x100F, stack_size: 32 };
    assert_eq!(least.initial_registers().unwrap().rsp, 0x1010);
}

#[test]
fn segmentation_fault_is_translated_and_terminates() {
    let mut translator = FaultTranslator::new(numbers());
    assert!(!translator.may_transfer());
    assert_eq!(translator.step(TranslatorEvent::Signal { number: 11, address: 0x10 }), TranslatorAction::Nothing);
    assert_eq!(translator.state, TranslatorState::Uninstalled);
    assert_eq!(translator.step(TranslatorEvent::Install), TranslatorAction::InstallHandlers(numbers()));
    assert!(translator.may_transfer());
    assert_eq!(translator.step(TranslatorEvent::Install), TranslatorAction::Nothing);
    assert_eq!(translator.step(TranslatorEvent::Signal { number: 2, address: 0 }), TranslatorAction::Nothing);
    assert_eq!(translator.state, TranslatorState::Installed);
    let record = FaultRecord {
        kind: FaultKind::SegmentationViolation,
        address: 0xDEAD_0000,
        guest_code: 0xC000_0005,
        decision: RecoveryDecision::Terminate { exit_code: 11 },
    };
    assert_eq!(translator.step(TranslatorEvent::Signal { number: 11, address: 0xDEAD_0000 }), TranslatorAction::Log(record));
    assert_eq!(translator.state, TranslatorState::Handling(record));
    assert!(!translator.may_transfer());
    assert_eq!(translator.step(TranslatorEvent::Signal { number: 4, address: 0 }), TranslatorAction::Nothing);
    assert_eq!(translator.step(TranslatorEvent::Logged), TranslatorAction::Exit(11));
    assert_eq!(translator.state, TranslatorState::Terminated(record));
    assert_eq!(translator.step(TranslatorEvent::Logged), TranslatorAction::Nothing);
    assert_eq!(translator.step(TranslatorEvent::Install), TranslatorAction::Nothing);
    assert_eq!(translator.state, TranslatorState::Terminated(record));
}

#[test]
fn fault_kinds_map_to_guest_codes() {
    assert_eq!(EXCEPTION_ACCESS_VIOLATION, 0xC000_0005);
    assert_eq!(FaultKind::SegmentationViolation.guest_code(), 0xC000_0005);
    assert_eq!(FaultKind::IllegalInstruction.guest_code(), EXCEPTION_ILLEGAL_INSTRUCTION);
    assert_eq!(FaultKind::IllegalInstruction.guest_code(), 0xC000_001D);
    assert_eq!(FaultKind::BusError.guest_code(), EXCEPTION_IN_PAGE_ERROR);
    assert_eq!(FaultKind::from_signal(&numbers(), 4), Some(FaultKind::IllegalInstruction));
    assert_eq!(FaultKind::from_signal(&numbers(), 7), Some(FaultKind::BusError));
    assert_eq!(FaultKind::from_signal(&numbers(), 11), Some(FaultKind::SegmentationViolation));
    assert_eq!(FaultKind::from_signal(&numbers(), 9), None);
    assert_eq!(FaultRecord::translate(&numbers(), 9, 0), None);
    let record = FaultRecord::translate(&numbers(), 7, 0x40).unwrap();
    assert_eq!(record.kind, FaultKind::BusError);
    assert_eq!(record.guest_code, 0xC000_0006);
    assert_eq!(record.decision, RecoveryDecision::Terminate { exit_code: 7 });
    assert!(FaultKind::SegmentationViolation.message().contains("0xC0000005"));
    assert!(FaultKind::IllegalInstruction.message().contains("0xC000001D"));
    assert!(FaultKind::BusError.message().contains("0xC0000006"));
}
