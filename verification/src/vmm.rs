//! Virtual memory manager: the address ranges that the host process holds for
//! a guest image, with their staged contents and protections.
//!
//! The manager keeps the books and takes the decisions. The mapping itself is
//! asked of the operating system by the caller, who hands the answer in.

use crate::image::{ImageDescriptor, ImageModel, Section};
use vstd::prelude::*;

verus! {

/// Protection of a range of memory.
#[derive(Clone, Copy, Debug, PartialEq, Eq, Structural)]
pub enum Protection {
    NoAccess,
    ReadWrite,
    ReadExecute,
}

/// Why the manager refused a request.
#[derive(Clone, Copy, Debug, PartialEq, Eq, Structural)]
pub enum VmmError {
    /// The range overlaps a region that the manager owns.
    AlreadyReserved,
    /// The operating system did not map the range at the requested address,
    /// or the range is one that it cannot map: empty, or beyond the address
    /// space.
    OsRejected,
    /// The manager owns no region of that index.
    NoSuchRegion,
    /// The region holds no image yet.
    NotPopulated,
    /// The image does not fit the region, or reaches beyond its source.
    OutOfBounds,
}

/// What the operating system answered to a mapping request.
#[derive(Clone, Copy, Debug, PartialEq, Eq, Structural)]
pub enum MapOutcome {
    /// The range was mapped, at this address.
    Mapped(u64),
    /// The request failed.
    Refused,
}

/// A request for an anonymous private mapping.
#[derive(Clone, Copy, Debug, PartialEq, Eq, Structural)]
pub struct MapRequest {
    pub address_hint: u64,
    pub length: usize,
    pub protection: Protection,
}

/// A range inside a region, with the protection that it is narrowed to.
#[derive(Clone, Copy, Debug, PartialEq, Eq, Structural)]
pub struct ProtectionSpan {
    pub offset: usize,
    pub length: usize,
    pub protection: Protection,
}

/// One reserved address range. `contents` is empty until an image is copied
/// in, and then as long as the region. `spans` lists the ranges whose
/// protection was narrowed, in section order.
#[derive(Clone, Debug)]
pub struct MemoryRegion {
    pub start: u64,
    pub size: usize,
    pub label: String,
    pub protection: Protection,
    pub contents: Vec<u8>,
    pub spans: Vec<ProtectionSpan>,
}

/// Mathematical model of a `MemoryRegion`.
pub struct RegionModel {
    pub start: u64,
    pub size: usize,
    pub label: Seq<char>,
    pub protection: Protection,
    pub contents: Seq<u8>,
    pub spans: Seq<ProtectionSpan>,
}

impl View for MemoryRegion {
    type V = RegionModel;

    open spec fn view(&self) -> RegionModel {
        RegionModel {
            start: self.start,
            size: self.size,
            label: self.label@,
            protection: self.protection,
            contents: self.contents@,
            spans: self.spans@,
        }
    }
}

/// The regions that one load attempt holds.
pub struct VirtualMemoryManager {
    pub reserved_regions: Vec<MemoryRegion>,
}

impl View for VirtualMemoryManager {
    type V = Seq<RegionModel>;

    open spec fn view(&self) -> Seq<RegionModel> {
        self.reserved_regions@.map_values(|r: MemoryRegion| r@)
    }
}

/// Address of the thread-environment placeholder.
pub const TEB_ADDRESS: u64 = 0x7ff0_0000_0000;

/// Size of the thread-environment placeholder: one page.
pub const TEB_SIZE: usize = 4096;

/// Two address ranges share at least one address.
pub open spec fn ranges_overlap(a_start: int, a_len: int, b_start: int, b_len: int) -> bool {
    a_start < b_start + b_len && b_start < a_start + a_len
}

/// A range shares an address with one of the regions.
pub open spec fn overlaps_any(regions: Seq<RegionModel>, base: u64, size: usize) -> bool {
    exists|i: int|
        0 <= i < regions.len() && ranges_overlap(
            (#[trigger] regions[i]).start as int,
            regions[i].size as int,
            base as int,
            size as int,
        )
}

/// A range that the operating system can map: not empty, and inside the
/// 64-bit address space.
pub open spec fn mappable(base: u64, size: usize) -> bool {
    size > 0 && base + size <= 0x1_0000_0000_0000_0000
}

/// What a reservation request is answered with, before the operating system
/// is asked.
pub open spec fn plan_verdict(regions: Seq<RegionModel>, base: u64, size: usize) -> Result<
    MapRequest,
    VmmError,
> {
    if !mappable(base, size) {
        Err(VmmError::OsRejected)
    } else if overlaps_any(regions, base, size) {
        Err(VmmError::AlreadyReserved)
    } else {
        Ok(MapRequest { address_hint: base, length: size, protection: Protection::NoAccess })
    }
}

/// What a reservation ends with, given the operating system's answer: it
/// succeeds only where the range was mapped at the requested address.
pub open spec fn reserve_verdict(
    regions: Seq<RegionModel>,
    base: u64,
    size: usize,
    outcome: MapOutcome,
) -> Result<(), VmmError> {
    match plan_verdict(regions, base, size) {
        Err(e) => Err(e),
        Ok(_) => if outcome == MapOutcome::Mapped(base) {
            Ok(())
        } else {
            Err(VmmError::OsRejected)
        },
    }
}

/// A region as a reservation creates it: inaccessible and empty.
pub open spec fn fresh_region(base: u64, size: usize, label: Seq<char>) -> RegionModel {
    RegionModel {
        start: base,
        size,
        label,
        protection: Protection::NoAccess,
        contents: Seq::empty(),
        spans: Seq::empty(),
    }
}

/// The regions after a reservation request: one more where it succeeds, the
/// same where it fails.
pub open spec fn reserve_step(
    regions: Seq<RegionModel>,
    base: u64,
    size: usize,
    label: Seq<char>,
    outcome: MapOutcome,
) -> Seq<RegionModel> {
    if reserve_verdict(regions, base, size, outcome).is_ok() {
        regions.push(fresh_region(base, size, label))
    } else {
        regions
    }
}

/// A region does not wrap around the address space, is not empty, holds
/// either nothing or as many bytes as it is long, and its spans lie inside it.
pub open spec fn region_wf(region: RegionModel) -> bool {
    &&& mappable(region.start, region.size)
    &&& region.contents.len() == 0 || region.contents.len() == region.size
    &&& forall|k: int|
        0 <= k < region.spans.len() ==> (#[trigger] region.spans[k]).offset
            + region.spans[k].length <= region.size
}

/// The invariant of a manager: its regions are well formed and no two of them
/// overlap.
pub open spec fn regions_wf(regions: Seq<RegionModel>) -> bool {
    &&& forall|i: int| 0 <= i < regions.len() ==> region_wf(#[trigger] regions[i])
    &&& forall|i: int, j: int|
        0 <= i < j < regions.len() ==> !ranges_overlap(
            (#[trigger] regions[i]).start as int,
            regions[i].size as int,
            (#[trigger] regions[j]).start as int,
            regions[j].size as int,
        )
}

/// `mem` with `data` written at offset `at`; bytes of `data` that would fall
/// beyond the end of `mem` are dropped.
pub open spec fn place(mem: Seq<u8>, at: int, data: Seq<u8>) -> Seq<u8> {
    Seq::new(
        mem.len(),
        |k: int|
            if at <= k < at + data.len() {
                data[k - at]
            } else {
                mem[k]
            },
    )
}

/// `mem` after the raw bytes of the first `n` sections were written at their
/// virtual addresses, in section order; empty sections are skipped.
pub open spec fn place_sections(mem: Seq<u8>, sections: Seq<Section>, raw: Seq<u8>, n: nat) -> Seq<
    u8,
>
    decreases n,
{
    if n == 0 {
        mem
    } else {
        let before = place_sections(mem, sections, raw, (n - 1) as nat);
        let s = sections[n - 1];
        if s.raw_size == 0 {
            before
        } else {
            place(
                before,
                s.virtual_address as int,
                raw.subrange(s.raw_offset as int, s.raw_offset + s.raw_size),
            )
        }
    }
}

/// The contents of a region of `size` bytes once an image was copied in:
/// zeroes, then the header bytes at the start, then each section.
pub open spec fn image_layout(size: nat, image: ImageModel, raw: Seq<u8>) -> Seq<u8> {
    place_sections(
        place(Seq::new(size, |k: int| 0u8), 0, raw.subrange(0, image.headers_size as int)),
        image.sections,
        raw,
        image.sections.len(),
    )
}

/// A section whose raw bytes can be copied: they lie inside the source and
/// land inside a region of `size` bytes.
pub open spec fn section_copyable(section: Section, size: usize, raw_len: nat) -> bool {
    section.raw_size == 0 || (section.raw_offset + section.raw_size <= raw_len
        && section.virtual_address + section.raw_size <= size)
}

/// An image can be copied into a region of `size` bytes from a source of
/// `raw_len` bytes.
pub open spec fn image_copyable(image: ImageModel, size: usize, raw_len: nat) -> bool {
    &&& image.image_size <= size
    &&& image.headers_size <= size
    &&& image.headers_size <= raw_len
    &&& forall|i: int|
        0 <= i < image.sections.len() ==> section_copyable(
            #[trigger] image.sections[i],
            size,
            raw_len,
        )
}

/// The span that a section is narrowed to: read and execute for a section
/// that declares execution, read and write for any other.
pub open spec fn span_of(section: Section) -> ProtectionSpan {
    ProtectionSpan {
        offset: section.virtual_address as usize,
        length: section.raw_size as usize,
        protection: if section.permissions.execute {
            Protection::ReadExecute
        } else {
            Protection::ReadWrite
        },
    }
}

/// The spans of the first `n` sections, in section order; empty sections have
/// none.
pub open spec fn spans_of(sections: Seq<Section>, n: nat) -> Seq<ProtectionSpan>
    decreases n,
{
    if n == 0 {
        Seq::empty()
    } else {
        let before = spans_of(sections, (n - 1) as nat);
        if sections[n - 1].raw_size == 0 {
            before
        } else {
            before.push(span_of(sections[n - 1]))
        }
    }
}

/// Every non-empty section lies inside a region of `size` bytes.
pub open spec fn sections_inside(sections: Seq<Section>, size: usize) -> bool {
    forall|i: int|
        0 <= i < sections.len() ==> ((#[trigger] sections[i]).raw_size == 0
            || sections[i].virtual_address + sections[i].raw_size <= size)
}

/// The protection at an offset, under the first `n` spans: that of the last
/// span that holds the offset, or `base` where none does.
pub open spec fn span_protection(
    spans: Seq<ProtectionSpan>,
    n: nat,
    offset: int,
    base: Protection,
) -> Protection
    decreases n,
{
    if n == 0 {
        base
    } else {
        let s = spans[n - 1];
        if s.offset <= offset < s.offset + s.length {
            s.protection
        } else {
            span_protection(spans, (n - 1) as nat, offset, base)
        }
    }
}

/// A region holds an address.
pub open spec fn region_holds(region: RegionModel, address: u64) -> bool {
    region.start <= address < region.start + region.size
}

/// The protection of an address inside a region.
pub open spec fn region_protection(region: RegionModel, address: u64) -> Protection {
    span_protection(region.spans, region.spans.len(), address - region.start, region.protection)
}

/// The protection of an address in a region, if the region holds it.
pub open spec fn held_protection(region: RegionModel, address: u64) -> Option<Protection> {
    if region_holds(region, address) {
        Some(region_protection(region, address))
    } else {
        None
    }
}

/// The protection of an address under the regions from index `from` on: that
/// in the first region that holds it, or none.
pub open spec fn protection_from(regions: Seq<RegionModel>, from: int, address: u64) -> Option<
    Protection,
>
    decreases regions.len() - from,
{
    if from < 0 || from >= regions.len() {
        None
    } else if region_holds(regions[from], address) {
        Some(region_protection(regions[from], address))
    } else {
        protection_from(regions, from + 1, address)
    }
}

/// The verdict on copying an image into region `index`.
pub open spec fn copy_verdict(
    regions: Seq<RegionModel>,
    index: usize,
    image: ImageModel,
    raw: Seq<u8>,
) -> Result<(), VmmError> {
    if index >= regions.len() {
        Err(VmmError::NoSuchRegion)
    } else if !image_copyable(image, regions[index as int].size, raw.len()) {
        Err(VmmError::OutOfBounds)
    } else {
        Ok(())
    }
}

/// The regions after an image was copied into region `index`: that region is
/// readable and writable, holds the image layout and has no spans; where the
/// copy is refused nothing changes.
pub open spec fn copy_step(
    regions: Seq<RegionModel>,
    index: usize,
    image: ImageModel,
    raw: Seq<u8>,
) -> Seq<RegionModel> {
    if copy_verdict(regions, index, image, raw).is_ok() {
        let old = regions[index as int];
        regions.update(
            index as int,
            RegionModel {
                protection: Protection::ReadWrite,
                contents: image_layout(old.size as nat, image, raw),
                spans: Seq::empty(),
                ..old
            },
        )
    } else {
        regions
    }
}

/// The verdict on narrowing the protections of region `index`.
pub open spec fn finalize_verdict(regions: Seq<RegionModel>, index: usize, image: ImageModel) -> Result<
    (),
    VmmError,
> {
    if index >= regions.len() {
        Err(VmmError::NoSuchRegion)
    } else if regions[index as int].protection != Protection::ReadWrite
        || regions[index as int].contents.len() != regions[index as int].size {
        Err(VmmError::NotPopulated)
    } else if !sections_inside(image.sections, regions[index as int].size) {
        Err(VmmError::OutOfBounds)
    } else {
        Ok(())
    }
}

/// The regions after the protections of region `index` were narrowed: its
/// spans are those of the image's sections; where that is refused nothing
/// changes.
pub open spec fn finalize_step(regions: Seq<RegionModel>, index: usize, image: ImageModel) -> Seq<
    RegionModel,
> {
    if finalize_verdict(regions, index, image).is_ok() {
        let old = regions[index as int];
        regions.update(
            index as int,
            RegionModel { spans: spans_of(image.sections, image.sections.len()), ..old },
        )
    } else {
        regions
    }
}

/// Writes `len` bytes of `data`, from offset `from` on, into `mem` at `at`.
pub(crate) fn place_bytes(mem: &mut Vec<u8>, at: usize, data: &[u8], from: usize, len: usize)
    requires
        at + len <= old(mem).len(),
        from + len <= data.len(),
    ensures
        final(mem)@ == place(old(mem)@, at as int, data@.subrange(from as int, from + len)),
{
    let mut k: usize = 0;
    while k < len
        invariant
            k <= len,
            at + len <= mem.len(),
            from + len <= data.len(),
            mem.len() == old(mem).len(),
            mem@ == place(old(mem)@, at as int, data@.subrange(from as int, from + k)),
        decreases len - k,
    {
        let byte = data[from + k];
        mem.set(at + k, byte);
        assert(mem@ =~= place(old(mem)@, at as int, data@.subrange(from as int, from + k + 1)));
        k += 1;
    }
}

impl MemoryRegion {
    /// The region holds the address.
    pub fn holds(&self, address: u64) -> (r: bool)
        ensures
            r == region_holds(self@, address),
    {
        self.start <= address && (address as u128) < (self.start as u128) + (self.size as u128)
    }

    /// The region shares an address with the range.
    pub fn overlaps(&self, base: u64, size: usize) -> (r: bool)
        ensures
            r == ranges_overlap(self.start as int, self.size as int, base as int, size as int),
    {
        (self.start as u128) < (base as u128) + (size as u128) && (base as u128) < (
        self.start as u128) + (self.size as u128)
    }

    /// The protection of an address, if the region holds it.
    pub fn protection_at(&self, address: u64) -> (p: Option<Protection>)
        ensures
            p == held_protection(self@, address),
    {
        if !self.holds(address) {
            return None;
        }
        let offset: u64 = address - self.start;
        let mut found = self.protection;
        let mut k: usize = 0;
        while k < self.spans.len()
            invariant
                k <= self.spans.len(),
                offset == address - self.start,
                found == span_protection(self.spans@, k as nat, offset as int, self.protection),
            decreases self.spans.len() - k,
        {
            let span = self.spans[k];
            if (span.offset as u128) <= (offset as u128) && (offset as u128) < (
            span.offset as u128) + (span.length as u128) {
                found = span.protection;
            }
            k += 1;
        }
        Some(found)
    }
}

impl VirtualMemoryManager {
    /// The invariant of a manager, on the executable type.
    pub open spec fn wf(&self) -> bool {
        regions_wf(self@)
    }

    /// A manager that owns no region.
    pub fn new() -> (vmm: VirtualMemoryManager)
        ensures
            vmm@ == Seq::<RegionModel>::empty(),
            vmm.wf(),
    {
        let vmm = VirtualMemoryManager { reserved_regions: Vec::new() };
        assert(vmm@ =~= Seq::<RegionModel>::empty());
        vmm
    }

    /// The regions that the manager owns, in the order of their reservation.
    pub fn list_regions(&self) -> (regions: &Vec<MemoryRegion>)
        ensures
            regions@.map_values(|r: MemoryRegion| r@) == self@,
    {
        &self.reserved_regions
    }

    /// Whether a range shares an address with a region that the manager owns.
    pub fn overlaps(&self, base: u64, size: usize) -> (r: bool)
        ensures
            r == overlaps_any(self@, base, size),
    {
        let mut i: usize = 0;
        while i < self.reserved_regions.len()
            invariant
                i <= self.reserved_regions.len(),
                forall|k: int|
                    0 <= k < i ==> !ranges_overlap(
                        (#[trigger] self@[k]).start as int,
                        self@[k].size as int,
                        base as int,
                        size as int,
                    ),
            decreases self.reserved_regions.len() - i,
        {
            if self.reserved_regions[i].overlaps(base, size) {
                assert(ranges_overlap(
                    self@[i as int].start as int,
                    self@[i as int].size as int,
                    base as int,
                    size as int,
                ));
                return true;
            }
            i += 1;
        }
        false
    }

    /// Checks a reservation before the operating system is asked, and gives
    /// the request to make: the range at its own address, inaccessible, so
    /// that nothing is written before the image is copied in.
    pub fn plan_reservation(&self, base: u64, size: usize) -> (r: Result<MapRequest, VmmError>)
        ensures
            r == plan_verdict(self@, base, size),
    {
        if size == 0 || (size as u128) + (base as u128) > 0x1_0000_0000_0000_0000u128 {
            return Err(VmmError::OsRejected);
        }
        if self.overlaps(base, size) {
            return Err(VmmError::AlreadyReserved);
        }
        Ok(MapRequest { address_hint: base, length: size, protection: Protection::NoAccess })
    }

    /// Records a reservation, given the operating system's answer to the
    /// request of `plan_reservation`. The range becomes a region of the
    /// manager only if it overlaps none and was mapped at `base`; otherwise
    /// the manager is left as it was.
    pub fn reserve_address_space(
        &mut self,
        base: u64,
        size: usize,
        label: &str,
        outcome: MapOutcome,
    ) -> (r: Result<(), VmmError>)
        ensures
            r == reserve_verdict(old(self)@, base, size, outcome),
            final(self)@ == reserve_step(old(self)@, base, size, label@, outcome),
            r.is_err() ==> final(self)@ == old(self)@,
            old(self).wf() ==> final(self).wf(),
    {
        match self.plan_reservation(base, size) {
            Err(e) => {
                return Err(e);
            },
            Ok(_) => {},
        }
        match outcome {
            MapOutcome::Mapped(address) => {
                if address != base {
                    return Err(VmmError::OsRejected);
                }
            },
            MapOutcome::Refused => {
                return Err(VmmError::OsRejected);
            },
        }
        let region = MemoryRegion {
            start: base,
            size,
            label: label.to_owned(),
            protection: Protection::NoAccess,
            contents: Vec::new(),
            spans: Vec::new(),
        };
        assert(region@ =~= fresh_region(base, size, label@));
        self.reserved_regions.push(region);
        assert(self@ =~= old(self)@.push(fresh_region(base, size, label@)));
        proof {
            if old(self).wf() {
                lemma_reservation_keeps_invariant(old(self)@, base, size, label@, outcome);
            }
        }
        Ok(())
    }

    /// Reserves the thread-environment placeholder and returns its address.
    pub fn setup_teb_space(&mut self, outcome: MapOutcome) -> (r: Result<u64, VmmError>)
        ensures
            match r {
                Ok(address) => address == TEB_ADDRESS && reserve_verdict(
                    old(self)@,
                    TEB_ADDRESS,
                    TEB_SIZE,
                    outcome,
                ).is_ok(),
                Err(e) => reserve_verdict(old(self)@, TEB_ADDRESS, TEB_SIZE, outcome) == Err::<
                    (),
                    VmmError,
                >(e),
            },
            final(self)@ == reserve_step(old(self)@, TEB_ADDRESS, TEB_SIZE, "TEB"@, outcome),
            old(self).wf() ==> final(self).wf(),
    {
        match self.reserve_address_space(TEB_ADDRESS, TEB_SIZE, "TEB", outcome) {
            Ok(()) => Ok(TEB_ADDRESS),
            Err(e) => Err(e),
        }
    }

    /// The protection of an address: that in the first region that holds it,
    /// or none where no region does.
    pub fn protection_at(&self, address: u64) -> (p: Option<Protection>)
        ensures
            p == protection_from(self@, 0, address),
    {
        let mut i: usize = 0;
        while i < self.reserved_regions.len()
            invariant
                i <= self.reserved_regions.len(),
                protection_from(self@, 0, address) == protection_from(self@, i as int, address),
            decreases self.reserved_regions.len() - i,
        {
            if self.reserved_regions[i].holds(address) {
                return self.reserved_regions[i].protection_at(address);
            }
            i += 1;
        }
        None
    }

    /// Whether an image can be copied into a region of `size` bytes from
    /// `raw_len` bytes of source.
    fn copyable(descriptor: &ImageDescriptor, size: usize, raw_len: usize) -> (r: bool)
        ensures
            r == image_copyable(descriptor@, size, raw_len as nat),
    {
        if descriptor.image_size as u64 > size as u64 || descriptor.headers_size as u64
            > size as u64 || descriptor.headers_size as u64 > raw_len as u64 {
            return false;
        }
        let mut i: usize = 0;
        while i < descriptor.sections.len()
            invariant
                i <= descriptor.sections.len(),
                forall|k: int|
                    0 <= k < i ==> section_copyable(
                        #[trigger] descriptor@.sections[k],
                        size,
                        raw_len as nat,
                    ),
            decreases descriptor.sections.len() - i,
        {
            let s = descriptor.sections[i];
            if s.raw_size != 0 && (s.raw_offset as u64 + s.raw_size as u64 > raw_len as u64
                || s.virtual_address as u64 + s.raw_size as u64 > size as u64) {
                assert(!section_copyable(descriptor@.sections[i as int], size, raw_len as nat));
                return false;
            }
            i += 1;
        }
        true
    }

    /// Copies an image into region `index`: the region becomes readable and
    /// writable and holds zeroes, then the header bytes at its start, then the
    /// raw bytes of each section at the section's virtual address, empty
    /// sections skipped. Fails, and changes nothing, if the manager owns no
    /// such region, if the image or its headers are larger than the region, or
    /// if the headers or a section's raw range reach beyond `raw_bytes`.
    pub fn copy_sections(&mut self, index: usize, descriptor: &ImageDescriptor, raw_bytes: &[u8]) -> (r:
        Result<(), VmmError>)
        ensures
            r == copy_verdict(old(self)@, index, descriptor@, raw_bytes@),
            final(self)@ == copy_step(old(self)@, index, descriptor@, raw_bytes@),
            r.is_ok() ==> final(self)@[index as int].contents.len() == old(
                self,
            )@[index as int].size,
            old(self).wf() ==> final(self).wf(),
    {
        if index >= self.reserved_regions.len() {
            return Err(VmmError::NoSuchRegion);
        }
        let size = self.reserved_regions[index].size;
        if !Self::copyable(descriptor, size, raw_bytes.len()) {
            return Err(VmmError::OutOfBounds);
        }
        let mut mem: Vec<u8> = Vec::new();
        let mut filled: usize = 0;
        while filled < size
            invariant
                filled <= size,
                mem@ == Seq::new(filled as nat, |k: int| 0u8),
            decreases size - filled,
        {
            mem.push(0u8);
            filled += 1;
            assert(mem@ =~= Seq::new(filled as nat, |k: int| 0u8));
        }
        place_bytes(&mut mem, 0, raw_bytes, 0, descriptor.headers_size as usize);
        let ghost start = mem@;
        let mut i: usize = 0;
        while i < descriptor.sections.len()
            invariant
                i <= descriptor.sections.len(),
                mem.len() == size,
                image_copyable(descriptor@, size, raw_bytes@.len()),
                mem@ == place_sections(start, descriptor@.sections, raw_bytes@, i as nat),
            decreases descriptor.sections.len() - i,
        {
            let s = descriptor.sections[i];
            assert(section_copyable(descriptor@.sections[i as int], size, raw_bytes@.len()));
            if s.raw_size != 0 {
                place_bytes(
                    &mut mem,
                    s.virtual_address as usize,
                    raw_bytes,
                    s.raw_offset as usize,
                    s.raw_size as usize,
                );
            }
            i += 1;
        }
        assert(mem@ == image_layout(size as nat, descriptor@, raw_bytes@));
        let mut region = self.reserved_regions.remove(index);
        region.protection = Protection::ReadWrite;
        region.contents = mem;
        region.spans = Vec::new();
        self.reserved_regions.insert(index, region);
        assert(self@ =~= copy_step(old(self)@, index, descriptor@, raw_bytes@));
        proof {
            if old(self).wf() {
                lemma_update_keeps_invariant(old(self)@, index as int, self@[index as int]);
            }
        }
        Ok(())
    }

    /// Whether every non-empty section lies inside a region of `size` bytes.
    fn inside(descriptor: &ImageDescriptor, size: usize) -> (r: bool)
        ensures
            r == sections_inside(descriptor@.sections, size),
    {
        let mut i: usize = 0;
        while i < descriptor.sections.len()
            invariant
                i <= descriptor.sections.len(),
                forall|k: int|
                    0 <= k < i ==> ((#[trigger] descriptor@.sections[k]).raw_size == 0
                        || descriptor@.sections[k].virtual_address
                        + descriptor@.sections[k].raw_size <= size),
            decreases descriptor.sections.len() - i,
        {
            let s = descriptor.sections[i];
            if s.raw_size != 0 && s.virtual_address as u64 + s.raw_size as u64 > size as u64 {
                return false;
            }
            i += 1;
        }
        true
    }

    /// Narrows the protection of each section of the image in region `index`
    /// to what the section declares: a section that declares execution
    /// becomes readable and executable, any other readable and writable.
    /// Fails, and changes nothing, if the manager owns no such region, if no
    /// image was copied into it, or if a section reaches beyond it.
    pub fn finalize_protections(&mut self, index: usize, descriptor: &ImageDescriptor) -> (r: Result<
        (),
        VmmError,
    >)
        ensures
            r == finalize_verdict(old(self)@, index, descriptor@),
            final(self)@ == finalize_step(old(self)@, index, descriptor@),
            old(self).wf() ==> final(self).wf(),
    {
        if index >= self.reserved_regions.len() {
            return Err(VmmError::NoSuchRegion);
        }
        let size = self.reserved_regions[index].size;
        if self.reserved_regions[index].protection != Protection::ReadWrite
            || self.reserved_regions[index].contents.len() != size {
            return Err(VmmError::NotPopulated);
        }
        if !Self::inside(descriptor, size) {
            return Err(VmmError::OutOfBounds);
        }
        let mut spans: Vec<ProtectionSpan> = Vec::new();
        let mut i: usize = 0;
        while i < descriptor.sections.len()
            invariant
                i <= descriptor.sections.len(),
                sections_inside(descriptor@.sections, size),
                spans@ == spans_of(descriptor@.sections, i as nat),
                forall|k: int|
                    0 <= k < spans.len() ==> (#[trigger] spans[k]).offset + spans[k].length
                        <= size,
            decreases descriptor.sections.len() - i,
        {
            let s = descriptor.sections[i];
            if s.raw_size != 0 {
                assert(descriptor@.sections[i as int].virtual_address
                    + descriptor@.sections[i as int].raw_size <= size);
                spans.push(
                    ProtectionSpan {
                        offset: s.virtual_address as usize,
                        length: s.raw_size as usize,
                        protection: if s.permissions.execute {
                            Protection::ReadExecute
                        } else {
                            Protection::ReadWrite
                        },
                    },
                );
            }
            i += 1;
        }
        let mut region = self.reserved_regions.remove(index);
        region.spans = spans;
        self.reserved_regions.insert(index, region);
        assert(self@ =~= finalize_step(old(self)@, index, descriptor@));
        proof {
            if old(self).wf() {
                lemma_update_keeps_invariant(old(self)@, index as int, self@[index as int]);
            }
        }
        Ok(())
    }

    /// Gives up every region: the manager owns none afterwards, and the caller
    /// gets them, to unmap each.
    pub fn teardown(&mut self) -> (released: Vec<MemoryRegion>)
        ensures
            released@.map_values(|r: MemoryRegion| r@) == old(self)@,
            final(self)@ == Seq::<RegionModel>::empty(),
            final(self).wf(),
    {
        let mut released: Vec<MemoryRegion> = Vec::new();
        std::mem::swap(&mut self.reserved_regions, &mut released);
        assert(self@ =~= Seq::<RegionModel>::empty());
        released
    }
}

/// A reservation keeps the invariant of the manager: the regions stay well
/// formed and disjoint, whatever the operating system answered.
pub proof fn lemma_reservation_keeps_invariant(
    regions: Seq<RegionModel>,
    base: u64,
    size: usize,
    label: Seq<char>,
    outcome: MapOutcome,
)
    requires
        regions_wf(regions),
    ensures
        regions_wf(reserve_step(regions, base, size, label, outcome)),
{
    let after = reserve_step(regions, base, size, label, outcome);
    if reserve_verdict(regions, base, size, outcome).is_ok() {
        assert forall|i: int, j: int| 0 <= i < j < after.len() implies !ranges_overlap(
            (#[trigger] after[i]).start as int,
            after[i].size as int,
            (#[trigger] after[j]).start as int,
            after[j].size as int,
        ) by {
            if j == regions.len() {
                assert(after[i] == regions[i]);
            }
        }
    }
}

/// Of two reservations with overlapping ranges the second is refused, as
/// already reserved or as rejected, and the regions after it are those before
/// it.
pub proof fn lemma_overlapping_reservation_refused(
    regions: Seq<RegionModel>,
    first_base: u64,
    first_size: usize,
    first_label: Seq<char>,
    first_outcome: MapOutcome,
    second_base: u64,
    second_size: usize,
    second_label: Seq<char>,
    second_outcome: MapOutcome,
)
    requires
        reserve_verdict(regions, first_base, first_size, first_outcome).is_ok(),
        ranges_overlap(
            first_base as int,
            first_size as int,
            second_base as int,
            second_size as int,
        ),
    ensures
        ({
            let held = reserve_step(regions, first_base, first_size, first_label, first_outcome);
            let verdict = reserve_verdict(held, second_base, second_size, second_outcome);
            &&& verdict == Err::<(), VmmError>(VmmError::AlreadyReserved) || verdict == Err::<
                (),
                VmmError,
            >(VmmError::OsRejected)
            &&& reserve_step(held, second_base, second_size, second_label, second_outcome) == held
            &&& reserve_step(held, second_base, second_size, second_label, second_outcome).len()
                == held.len()
        }),
{
    let held = reserve_step(regions, first_base, first_size, first_label, first_outcome);
    assert(held[regions.len() as int] == fresh_region(first_base, first_size, first_label));
}

/// Replacing a region by a well-formed one of the same range keeps the
/// invariant of the manager.
pub proof fn lemma_update_keeps_invariant(regions: Seq<RegionModel>, index: int, region: RegionModel)
    requires
        regions_wf(regions),
        0 <= index < regions.len(),
        region_wf(region),
        region.start == regions[index].start,
        region.size == regions[index].size,
    ensures
        regions_wf(regions.update(index, region)),
{
    let after = regions.update(index, region);
    assert forall|i: int, j: int| 0 <= i < j < after.len() implies !ranges_overlap(
        (#[trigger] after[i]).start as int,
        after[i].size as int,
        (#[trigger] after[j]).start as int,
        after[j].size as int,
    ) by {
        assert(after[i].start == regions[i].start && after[i].size == regions[i].size);
        assert(after[j].start == regions[j].start && after[j].size == regions[j].size);
    }
}

} // verus!
