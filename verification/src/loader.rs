//! Loader: the bootstrap path from the bytes of a guest image to a linked
//! image in a region of the memory manager, and the diagnostic records that
//! are shown for it.

use crate::image::{
    arch_name, parse, parse_spec, ImageDescriptor, ImageModel, ImportDescriptor, ImportModel,
    MachineArch, ParseError, SymbolModel,
};
use crate::linker::{
    link_spec, region_with_contents, EntryModel, ImportEntry, LinkReport, SymbolicLinker,
};
use crate::vmm::{
    copy_step, copy_verdict, finalize_step, finalize_verdict, fresh_region, reserve_verdict,
    MapOutcome, RegionModel, VirtualMemoryManager, VmmError,
};
use vstd::prelude::*;

verus! {

/// The diagnostic record of an image.
#[derive(Clone, Debug)]
pub struct ExecutableInfo {
    pub path: String,
    pub machine: String,
    pub entry_point: u64,
    pub sections: usize,
    pub is_64_bit: bool,
    pub base_address: u64,
}

/// Mathematical model of an `ExecutableInfo`.
pub struct InfoModel {
    pub path: Seq<char>,
    pub machine: Seq<char>,
    pub entry_point: u64,
    pub sections: usize,
    pub is_64_bit: bool,
    pub base_address: u64,
}

impl View for ExecutableInfo {
    type V = InfoModel;

    open spec fn view(&self) -> InfoModel {
        InfoModel {
            path: self.path@,
            machine: self.machine@,
            entry_point: self.entry_point,
            sections: self.sections,
            is_64_bit: self.is_64_bit,
            base_address: self.base_address,
        }
    }
}

/// Why a load attempt was abandoned.
#[derive(Clone, Copy, Debug, PartialEq, Eq, Structural)]
pub enum LoadError {
    /// The image was refused.
    Parse(ParseError),
    /// The image could not be laid out in memory.
    Vmm(VmmError),
}

/// An image that was laid out and linked: the index of its region, the
/// address of its entry point, and the report of the link pass.
#[derive(Clone, Debug)]
pub struct MappedImage {
    pub region: usize,
    pub entry_address: u64,
    pub report: LinkReport,
}

/// The diagnostic record of an image found at `path`: the name of its
/// architecture, its bitness, the RVA of its entry point, its preferred base
/// address and the number of its sections.
pub open spec fn info_of(image: ImageModel, path: Seq<char>) -> InfoModel {
    InfoModel {
        path,
        machine: arch_name(image.machine),
        entry_point: image.entry_rva as u64,
        sections: image.sections.len() as usize,
        is_64_bit: image.is_64_bit,
        base_address: image.base_address,
    }
}

/// What `load_executable` returns for a path and the bytes found there.
pub open spec fn load_spec(path: Seq<char>, bytes: Seq<u8>) -> Result<InfoModel, ParseError> {
    match parse_spec(bytes) {
        Err(e) => Err(e),
        Ok(image) => Ok(info_of(image, path)),
    }
}

/// The entries of the first `n` symbols of one module, each with address
/// zero.
pub open spec fn module_entries(module: Seq<char>, symbols: Seq<SymbolModel>, n: nat) -> Seq<
    EntryModel,
>
    decreases n,
{
    if n == 0 {
        Seq::empty()
    } else {
        module_entries(module, symbols, (n - 1) as nat).push(
            EntryModel { dll: module, function: symbols[n - 1].name_or_ordinal, address: 0 },
        )
    }
}

/// The entries of the first `n` modules: every imported symbol, in import
/// order, with address zero.
pub open spec fn import_entries(imports: Seq<ImportModel>, n: nat) -> Seq<EntryModel>
    decreases n,
{
    if n == 0 {
        Seq::empty()
    } else {
        import_entries(imports, (n - 1) as nat) + module_entries(
            imports[n - 1].module_name,
            imports[n - 1].symbols,
            imports[n - 1].symbols.len(),
        )
    }
}

/// What `get_import_table` returns for the bytes of an image.
pub open spec fn import_table_spec(bytes: Seq<u8>) -> Result<Seq<EntryModel>, ParseError> {
    match parse_spec(bytes) {
        Err(e) => Err(e),
        Ok(image) => Ok(import_entries(image.imports, image.imports.len())),
    }
}

/// Label of the region that holds a guest image.
pub open spec fn image_label() -> Seq<char> {
    "PE_IMAGE"@
}

/// Whether an image is laid out, and if not, why: the image must parse, its
/// architecture must be a known one, its range must be reserved, and its
/// headers and sections must fit the region and their source.
pub open spec fn map_verdict(regions: Seq<RegionModel>, bytes: Seq<u8>, outcome: MapOutcome) -> Result<
    ImageModel,
    LoadError,
> {
    match parse_spec(bytes) {
        Err(e) => Err(LoadError::Parse(e)),
        Ok(image) => if image.machine == MachineArch::Unknown {
            Err(LoadError::Parse(ParseError::UnsupportedMachine))
        } else {
            match reserve_verdict(
                regions,
                image.base_address,
                image.image_size as usize,
                outcome,
            ) {
                Err(e) => Err(LoadError::Vmm(e)),
                Ok(_) => {
                    let reserved = reserved_for(regions, image);
                    match copy_verdict(reserved, regions.len() as usize, image, bytes) {
                        Err(e) => Err(LoadError::Vmm(e)),
                        Ok(_) => Ok(image),
                    }
                },
            }
        },
    }
}

/// The regions with one more, reserved for the image.
pub open spec fn reserved_for(regions: Seq<RegionModel>, image: ImageModel) -> Seq<RegionModel> {
    regions.push(fresh_region(image.base_address, image.image_size as usize, image_label()))
}

/// The regions once the image was copied into the new region and linked.
pub open spec fn linked_for(
    regions: Seq<RegionModel>,
    table: Map<Seq<char>, usize>,
    image: ImageModel,
    bytes: Seq<u8>,
) -> Seq<RegionModel> {
    let index = regions.len() as usize;
    let copied = copy_step(reserved_for(regions, image), index, image, bytes);
    copied.update(
        index as int,
        region_with_contents(
            copied[index as int],
            link_spec(table, image.imports, image.wide_slots, copied[index as int].contents).contents,
        ),
    )
}

/// The regions after a successful load: one more than before, which holds
/// the image, copied, linked, and with its protections narrowed.
pub open spec fn mapped_regions(
    regions: Seq<RegionModel>,
    table: Map<Seq<char>, usize>,
    image: ImageModel,
    bytes: Seq<u8>,
) -> Seq<RegionModel> {
    finalize_step(linked_for(regions, table, image, bytes), regions.len() as usize, image)
}

/// Builds the diagnostic record of a parsed image.
pub fn describe_executable(descriptor: &ImageDescriptor, path: &str) -> (info: ExecutableInfo)
    ensures
        info@ == info_of(descriptor@, path@),
{
    ExecutableInfo {
        path: path.to_owned(),
        machine: descriptor.machine.name().to_owned(),
        entry_point: descriptor.entry_rva as u64,
        sections: descriptor.sections.len(),
        is_64_bit: descriptor.is_64_bit,
        base_address: descriptor.base_address,
    }
}

/// Parses the image read from `path_str` and returns its diagnostic record.
pub fn load_executable(path_str: &str, buffer: &[u8]) -> (r: Result<ExecutableInfo, ParseError>)
    ensures
        match r {
            Ok(info) => load_spec(path_str@, buffer@) == Ok::<InfoModel, ParseError>(info@),
            Err(e) => load_spec(path_str@, buffer@) == Err::<InfoModel, ParseError>(e),
        },
{
    match parse(buffer) {
        Err(e) => Err(e),
        Ok(descriptor) => Ok(describe_executable(&descriptor, path_str)),
    }
}

/// Lists the entries of a module's symbols after those in `out`.
fn push_module_entries(module: &ImportDescriptor, out: &mut Vec<ImportEntry>)
    ensures
        final(out)@.map_values(|e: ImportEntry| e@) == old(out)@.map_values(|e: ImportEntry| e@)
            + module_entries(module@.module_name, module@.symbols, module@.symbols.len()),
{
    let ghost before = out@.map_values(|e: ImportEntry| e@);
    let mut k: usize = 0;
    assert(before + module_entries(module@.module_name, module@.symbols, 0) =~= before);
    while k < module.symbols.len()
        invariant
            k <= module.symbols.len(),
            out@.map_values(|e: ImportEntry| e@) == before + module_entries(
                module@.module_name,
                module@.symbols,
                k as nat,
            ),
        decreases module.symbols.len() - k,
    {
        let symbol = &module.symbols[k];
        assert(module@.symbols[k as int] == symbol@);
        let ghost listed = out@.map_values(|e: ImportEntry| e@);
        out.push(
            ImportEntry {
                dll: module.module_name.clone(),
                function: symbol.name_or_ordinal.clone(),
                address: 0,
            },
        );
        assert(out@.map_values(|e: ImportEntry| e@) =~= listed.push(out@.last()@));
        assert(out@.map_values(|e: ImportEntry| e@) =~= before + module_entries(
            module@.module_name,
            module@.symbols,
            (k + 1) as nat,
        ));
        k += 1;
    }
}

/// Lists every import of an image, in import order, each with address zero:
/// the import table before linking.
pub fn import_table(descriptor: &ImageDescriptor) -> (entries: Vec<ImportEntry>)
    ensures
        entries@.map_values(|e: ImportEntry| e@) == import_entries(
            descriptor@.imports,
            descriptor@.imports.len(),
        ),
{
    let mut entries: Vec<ImportEntry> = Vec::new();
    let mut m: usize = 0;
    assert(entries@.map_values(|e: ImportEntry| e@) =~= import_entries(descriptor@.imports, 0));
    while m < descriptor.imports.len()
        invariant
            m <= descriptor.imports.len(),
            entries@.map_values(|e: ImportEntry| e@) == import_entries(
                descriptor@.imports,
                m as nat,
            ),
        decreases descriptor.imports.len() - m,
    {
        assert(descriptor@.imports[m as int] == descriptor.imports@[m as int]@);
        push_module_entries(&descriptor.imports[m], &mut entries);
        m += 1;
    }
    entries
}

/// Parses an image and lists its imports, in import order, each with address
/// zero.
pub fn get_import_table(buffer: &[u8]) -> (r: Result<Vec<ImportEntry>, ParseError>)
    ensures
        match r {
            Ok(entries) => import_table_spec(buffer@) == Ok::<Seq<EntryModel>, ParseError>(
                entries@.map_values(|e: ImportEntry| e@),
            ),
            Err(e) => import_table_spec(buffer@) == Err::<Seq<EntryModel>, ParseError>(e),
        },
{
    match parse(buffer) {
        Err(e) => Err(e),
        Ok(descriptor) => Ok(import_table(&descriptor)),
    }
}

/// Resolves the imports of an image against the table and patches the
/// resolved addresses into the import address table in region `index`. Does
/// nothing, and reports nothing, where the manager owns no such region.
pub fn patch_iat(
    vmm: &mut VirtualMemoryManager,
    index: usize,
    descriptor: &ImageDescriptor,
    linker: &SymbolicLinker,
) -> (report: Option<LinkReport>)
    ensures
        index >= old(vmm)@.len() ==> report.is_none() && final(vmm)@ == old(vmm)@,
        index < old(vmm)@.len() ==> ({
            let end = link_spec(
                linker@,
                descriptor@.imports,
                descriptor@.wide_slots,
                old(vmm)@[index as int].contents,
            );
            &&& final(vmm)@ == old(vmm)@.update(
                index as int,
                region_with_contents(old(vmm)@[index as int], end.contents),
            )
            &&& report matches Some(found)
            &&& found.resolved_model() == end.resolved
            &&& found.unresolved_model() == end.unresolved
            &&& end.contents.len() == old(vmm)@[index as int].contents.len()
        }),
        old(vmm).wf() ==> final(vmm).wf(),
{
    if index >= vmm.reserved_regions.len() {
        return None;
    }
    let mut region = vmm.reserved_regions.remove(index);
    let report = linker.link_image(descriptor, &mut region);
    vmm.reserved_regions.insert(index, region);
    assert(vmm@ =~= old(vmm)@.update(index as int, vmm@[index as int]));
    proof {
        if old(vmm).wf() {
            crate::vmm::lemma_update_keeps_invariant(old(vmm)@, index as int, vmm@[index as int]);
        }
    }
    Some(report)
}

/// Lays an image out in memory and links it: parses it, refuses an unknown
/// architecture, reserves the image's range at its preferred base (given the
/// operating system's answer to that request), copies headers and sections
/// in, patches the import address table, and narrows the section
/// protections. Imports that stay unresolved do not fail the load. Where the
/// load fails the manager is left as it was.
pub fn map_pe_to_memory(
    pe_data: &[u8],
    vmm: &mut VirtualMemoryManager,
    linker: &SymbolicLinker,
    outcome: MapOutcome,
) -> (r: Result<MappedImage, LoadError>)
    ensures
        match r {
            Err(e) => map_verdict(old(vmm)@, pe_data@, outcome) == Err::<ImageModel, LoadError>(e)
                && final(vmm)@ == old(vmm)@,
            Ok(mapped) => {
                &&& map_verdict(old(vmm)@, pe_data@, outcome) matches Ok(image)
                &&& final(vmm)@ == mapped_regions(old(vmm)@, linker@, image, pe_data@)
                &&& mapped.region == old(vmm)@.len()
                &&& mapped.entry_address == image.base_address + image.entry_rva
                &&& crate::vmm::region_holds(
                    final(vmm)@[mapped.region as int],
                    mapped.entry_address,
                )
                &&& ({
                    let copied = copy_step(
                        reserved_for(old(vmm)@, image),
                        mapped.region,
                        image,
                        pe_data@,
                    );
                    let end = link_spec(
                        linker@,
                        image.imports,
                        image.wide_slots,
                        copied[mapped.region as int].contents,
                    );
                    mapped.report.resolved_model() == end.resolved
                        && mapped.report.unresolved_model() == end.unresolved
                })
            },
        },
        old(vmm).wf() ==> final(vmm).wf(),
{
    let descriptor = match parse(pe_data) {
        Err(e) => {
            return Err(LoadError::Parse(e));
        },
        Ok(descriptor) => descriptor,
    };
    match descriptor.machine {
        MachineArch::Unknown => {
            return Err(LoadError::Parse(ParseError::UnsupportedMachine));
        },
        _ => {},
    }
    let index = vmm.reserved_regions.len();
    match vmm.reserve_address_space(
        descriptor.base_address,
        descriptor.image_size as usize,
        "PE_IMAGE",
        outcome,
    ) {
        Err(e) => {
            return Err(LoadError::Vmm(e));
        },
        Ok(()) => {},
    }
    let ghost reserved = vmm@;
    assert(reserved == reserved_for(old(vmm)@, descriptor@));
    match vmm.copy_sections(index, &descriptor, pe_data) {
        Err(e) => {
            vmm.reserved_regions.pop();
            assert(vmm@ =~= reserved.drop_last());
            assert(reserved.drop_last() =~= old(vmm)@);
            return Err(LoadError::Vmm(e));
        },
        Ok(()) => {},
    }
    let report = match patch_iat(vmm, index, &descriptor, linker) {
        Some(report) => report,
        None => LinkReport { resolved: Vec::new(), unresolved: Vec::new() },
    };
    assert(vmm@ == linked_for(old(vmm)@, linker@, descriptor@, pe_data@));
    let ghost linked = vmm@;
    let narrowed = vmm.finalize_protections(index, &descriptor);
    assert(narrowed.is_ok()) by {
        let size = linked[index as int].size;
        assert(crate::vmm::image_copyable(descriptor@, size, pe_data@.len()));
        assert forall|i: int| 0 <= i < descriptor@.sections.len() implies ((
        #[trigger] descriptor@.sections[i]).raw_size == 0 || descriptor@.sections[i].virtual_address
            + descriptor@.sections[i].raw_size <= size) by {
            assert(crate::vmm::section_copyable(descriptor@.sections[i], size, pe_data@.len()));
        }
        assert(finalize_verdict(linked, index, descriptor@).is_ok());
    }
    Ok(
        MappedImage {
            region: index,
            entry_address: descriptor.base_address + descriptor.entry_rva as u64,
            report,
        },
    )
}

/// An image that does not parse is refused before anything is asked of the
/// memory manager: the load fails with the parser's error whatever the
/// operating system would have answered.
pub proof fn lemma_refused_before_mapping(
    regions: Seq<RegionModel>,
    bytes: Seq<u8>,
    outcome: MapOutcome,
)
    ensures
        parse_spec(bytes) matches Err(e) ==> map_verdict(regions, bytes, outcome) == Err::<
            ImageModel,
            LoadError,
        >(LoadError::Parse(e)),
        map_verdict(regions, bytes, outcome) matches Ok(image) ==> image.entry_rva
            < image.image_size,
{
    match parse_spec(bytes) {
        Ok(image) => {
            crate::image::lemma_parsed_image_is_wf(bytes);
        },
        Err(_) => {},
    }
}

} // verus!
