//! Execution context: the entry address and the stack that a guest image
//! starts on, and the register state that the transfer of control sets up.
//!
//! The transfer itself is not part of this library. What is decided here is
//! whether a context may be built at all, and what the registers hold at the
//! moment of the jump.

use crate::signals::{FaultTranslator, TranslatorState};
use crate::vmm::{protection_from, MapOutcome, Protection, RegionModel, VirtualMemoryManager};
use vstd::prelude::*;

verus! {

/// Size of the stack that a context gets where none is asked for: 2 MiB.
pub const DEFAULT_STACK_SIZE: usize = 0x20_0000;

/// Size of the inaccessible guard below a stack: one page.
pub const GUARD_SIZE: usize = 4096;

/// Boundary that the stack pointer is aligned to.
pub const STACK_ALIGNMENT: usize = 16;

/// Bytes that stay free above the initial stack pointer.
pub const STACK_RESERVE: usize = 16;

/// Why no context was built.
#[derive(Clone, Copy, Debug, PartialEq, Eq, Structural)]
pub enum ContextError {
    /// The entry address lies in no region that allows execution.
    InvalidEntry,
    /// The stack region is empty.
    EmptyStack,
    /// The stack region is not empty, but the aligned stack pointer with the
    /// reserved bytes above it does not lie inside it; or the region wraps
    /// around the address space, or could not be mapped.
    StackUnavailable,
    /// The fault translator is not installed, or has a fault in hand.
    TranslatorNotReady,
}

/// A stack with its guard: the guard occupies `[guard_base, base)`, the stack
/// `[base, base + size)`.
#[derive(Clone, Copy, Debug, PartialEq, Eq, Structural)]
pub struct StackRegion {
    pub guard_base: usize,
    pub base: usize,
    pub size: usize,
}

/// What a guest finds in the registers when control reaches its entry point.
#[derive(Clone, Copy, Debug, PartialEq, Eq, Structural)]
pub struct RegisterFile {
    pub rip: usize,
    pub rsp: usize,
    pub rbp: usize,
    pub rax: usize,
    pub rbx: usize,
    pub rcx: usize,
    pub rdx: usize,
    pub rsi: usize,
    pub rdi: usize,
    pub r8: usize,
    pub r9: usize,
    pub r10: usize,
    pub r11: usize,
    pub r12: usize,
    pub r13: usize,
    pub r14: usize,
    pub r15: usize,
}

/// Entry address and stack of one load attempt. A context is neither copied
/// nor cloned: preparing the transfer uses it up.
#[derive(Debug, PartialEq, Eq, Structural)]
pub struct ExecutionContext {
    pub entry_point: usize,
    pub stack_base: usize,
    pub stack_size: usize,
}

/// Length of the mapping that a stack of `size` bytes needs: the stack and
/// its guard. None for an empty stack and for one that, with its guard, is
/// longer than an address can express.
pub open spec fn stack_mapping_length(size: usize) -> Option<usize> {
    if size == 0 || size + GUARD_SIZE > usize::MAX {
        None
    } else {
        Some((size + GUARD_SIZE) as usize)
    }
}

/// The stack region that a mapping at `address` gives, or the reason why
/// there is none.
pub open spec fn allocate_spec(size: usize, outcome: MapOutcome) -> Result<StackRegion, ContextError> {
    if size == 0 {
        Err(ContextError::EmptyStack)
    } else {
        match outcome {
            MapOutcome::Refused => Err(ContextError::StackUnavailable),
            MapOutcome::Mapped(address) => if address + GUARD_SIZE + size > usize::MAX {
                Err(ContextError::StackUnavailable)
            } else {
                Ok(
                    StackRegion {
                        guard_base: address as usize,
                        base: (address + GUARD_SIZE) as usize,
                        size,
                    },
                )
            },
        }
    }
}

/// The initial stack pointer of a stack: sixteen bytes below its top, rounded
/// down to the alignment boundary.
pub open spec fn stack_pointer_of(base: usize, size: usize) -> int {
    (base + size - STACK_RESERVE) - (base + size - STACK_RESERVE) % (STACK_ALIGNMENT as int)
}

/// A stack on which the stack pointer can be set up: the stack does not wrap
/// around the address space, and its initial stack pointer lies inside it.
/// That is all the alignment rule asks. A stack of sixteen bytes serves where
/// its top is aligned; one of thirty-one bytes or more serves wherever it
/// lies; one of fewer than sixteen bytes never does.
pub open spec fn stack_usable(base: usize, size: usize) -> bool {
    &&& size >= STACK_RESERVE
    &&& base + size <= usize::MAX
    &&& base <= stack_pointer_of(base, size)
}

/// An address allows execution under the given regions.
pub open spec fn executable_at(regions: Seq<RegionModel>, address: u64) -> bool {
    protection_from(regions, 0, address) == Some(Protection::ReadExecute)
}

/// The context for an entry address and a stack, or the reason why none may
/// be built: an empty stack, one that cannot hold an aligned stack pointer,
/// or an entry address outside executable memory.
pub open spec fn build_spec(regions: Seq<RegionModel>, entry_address: u64, stack: StackRegion) -> Result<
    ExecutionContext,
    ContextError,
> {
    if stack.size == 0 {
        Err(ContextError::EmptyStack)
    } else if !stack_usable(stack.base, stack.size) {
        Err(ContextError::StackUnavailable)
    } else if entry_address > usize::MAX || !executable_at(regions, entry_address) {
        Err(ContextError::InvalidEntry)
    } else {
        Ok(
            ExecutionContext {
                entry_point: entry_address as usize,
                stack_base: stack.base,
                stack_size: stack.size,
            },
        )
    }
}

/// The registers at the moment of the transfer: the instruction pointer at
/// the entry point, the stack pointer aligned inside the stack, and every
/// other general-purpose register, the frame pointer among them, cleared.
pub open spec fn registers_of(ctx: ExecutionContext) -> RegisterFile {
    RegisterFile {
        rip: ctx.entry_point,
        rsp: stack_pointer_of(ctx.stack_base, ctx.stack_size) as usize,
        rbp: 0,
        rax: 0,
        rbx: 0,
        rcx: 0,
        rdx: 0,
        rsi: 0,
        rdi: 0,
        r8: 0,
        r9: 0,
        r10: 0,
        r11: 0,
        r12: 0,
        r13: 0,
        r14: 0,
        r15: 0,
    }
}

/// Every general-purpose register but the stack pointer holds zero: the
/// frame pointer, the four legacy registers, the two index registers, and
/// the eight numbered ones.
pub open spec fn others_cleared(registers: RegisterFile) -> bool {
    &&& registers.rbp == 0
    &&& registers.rax == 0
    &&& registers.rbx == 0
    &&& registers.rcx == 0
    &&& registers.rdx == 0
    &&& registers.rsi == 0
    &&& registers.rdi == 0
    &&& registers.r8 == 0
    &&& registers.r9 == 0
    &&& registers.r10 == 0
    &&& registers.r11 == 0
    &&& registers.r12 == 0
    &&& registers.r13 == 0
    &&& registers.r14 == 0
    &&& registers.r15 == 0
}

/// What preparing a transfer gives: the registers to set up, or the reason
/// why control must not be transferred. The fault translator has to be
/// installed, with no fault in hand, and the stack has to hold an aligned
/// stack pointer.
pub open spec fn transfer_spec(ctx: ExecutionContext, translator: TranslatorState) -> Result<
    RegisterFile,
    ContextError,
> {
    if translator != TranslatorState::Installed {
        Err(ContextError::TranslatorNotReady)
    } else if !stack_usable(ctx.stack_base, ctx.stack_size) {
        Err(ContextError::StackUnavailable)
    } else {
        Ok(registers_of(ctx))
    }
}

impl StackRegion {
    /// Length of the mapping to ask the operating system for: the stack and
    /// its guard.
    pub fn mapping_length(size: usize) -> (length: Option<usize>)
        ensures
            length == stack_mapping_length(size),
    {
        if size == 0 {
            None
        } else {
            size.checked_add(GUARD_SIZE)
        }
    }

    /// The stack region inside a mapping of `mapping_length(size)` bytes,
    /// given the operating system's answer to the request for it. The first
    /// page of the mapping is the guard, which the caller makes inaccessible;
    /// the stack lies immediately above it.
    pub fn allocate(size: usize, outcome: MapOutcome) -> (r: Result<StackRegion, ContextError>)
        ensures
            r == allocate_spec(size, outcome),
    {
        if size == 0 {
            return Err(ContextError::EmptyStack);
        }
        match outcome {
            MapOutcome::Refused => Err(ContextError::StackUnavailable),
            MapOutcome::Mapped(address) => {
                if address as u128 + GUARD_SIZE as u128 + size as u128 > usize::MAX as u128 {
                    Err(ContextError::StackUnavailable)
                } else {
                    Ok(
                        StackRegion {
                            guard_base: address as usize,
                            base: (address + GUARD_SIZE as u64) as usize,
                            size,
                        },
                    )
                }
            },
        }
    }
}

impl StackRegion {
    /// Whether the stack pointer can be set up on a stack.
    pub fn usable(base: usize, size: usize) -> (r: bool)
        ensures
            r == stack_usable(base, size),
    {
        if size < STACK_RESERVE || base as u128 + size as u128 > usize::MAX as u128 {
            return false;
        }
        let top: usize = base + size - STACK_RESERVE;
        base <= top - top % STACK_ALIGNMENT
    }
}

impl ExecutionContext {
    /// The invariant of a context: its stack can hold an aligned stack
    /// pointer.
    pub open spec fn wf(&self) -> bool {
        stack_usable(self.stack_base, self.stack_size)
    }

    /// A context on the given stack, unchecked.
    pub fn new(entry_point: usize, stack: StackRegion) -> (ctx: ExecutionContext)
        ensures
            ctx.entry_point == entry_point,
            ctx.stack_base == stack.base,
            ctx.stack_size == stack.size,
    {
        ExecutionContext { entry_point, stack_base: stack.base, stack_size: stack.size }
    }

    /// Builds the context for a transfer, after checking what the transfer
    /// relies on: the stack is not empty and can hold an aligned stack
    /// pointer, and the entry address lies in a region of the manager whose
    /// protection there allows execution.
    pub fn build(entry_address: u64, stack: StackRegion, vmm: &VirtualMemoryManager) -> (r: Result<
        ExecutionContext,
        ContextError,
    >)
        ensures
            r == build_spec(vmm@, entry_address, stack),
            r matches Ok(ctx) ==> ctx.wf(),
    {
        if stack.size == 0 {
            return Err(ContextError::EmptyStack);
        }
        if !StackRegion::usable(stack.base, stack.size) {
            return Err(ContextError::StackUnavailable);
        }
        if entry_address as u128 > usize::MAX as u128 {
            return Err(ContextError::InvalidEntry);
        }
        match vmm.protection_at(entry_address) {
            Some(Protection::ReadExecute) => Ok(
                ExecutionContext {
                    entry_point: entry_address as usize,
                    stack_base: stack.base,
                    stack_size: stack.size,
                },
            ),
            _ => Err(ContextError::InvalidEntry),
        }
    }

    /// Prepares the transfer of control and uses the context up. Gives the
    /// registers to set up at the jump, or the reason why there must be no
    /// jump: the fault translator is not installed, or the stack cannot hold
    /// an aligned stack pointer.
    pub fn prepare_transfer(self, translator: &FaultTranslator) -> (r: Result<
        RegisterFile,
        ContextError,
    >)
        ensures
            r == transfer_spec(self, translator.state),
            r matches Ok(registers) ==> {
                &&& registers.rip == self.entry_point
                &&& registers.rsp % STACK_ALIGNMENT == 0
                &&& self.stack_base <= registers.rsp
                &&& registers.rsp + 16 <= self.stack_base + self.stack_size
                &&& others_cleared(registers)
            },
    {
        if !translator.may_transfer() {
            return Err(ContextError::TranslatorNotReady);
        }
        match self.initial_registers() {
            Some(registers) => Ok(registers),
            None => Err(ContextError::StackUnavailable),
        }
    }

    /// The registers that the transfer sets up, or none for a context whose
    /// stack cannot hold an aligned stack pointer.
    pub fn initial_registers(&self) -> (r: Option<RegisterFile>)
        ensures
            r == if self.wf() {
                Some(registers_of(*self))
            } else {
                None
            },
            r matches Some(registers) ==> {
                &&& registers.rsp % STACK_ALIGNMENT == 0
                &&& self.stack_base <= registers.rsp
                &&& registers.rsp + 16 <= self.stack_base + self.stack_size
                &&& others_cleared(registers)
            },
    {
        if !StackRegion::usable(self.stack_base, self.stack_size) {
            return None;
        }
        let top: usize = self.stack_base + self.stack_size - STACK_RESERVE;
        let rsp: usize = top - top % STACK_ALIGNMENT;
        Some(
            RegisterFile {
                rip: self.entry_point,
                rsp,
                rbp: 0,
                rax: 0,
                rbx: 0,
                rcx: 0,
                rdx: 0,
                rsi: 0,
                rdi: 0,
                r8: 0,
                r9: 0,
                r10: 0,
                r11: 0,
                r12: 0,
                r13: 0,
                r14: 0,
                r15: 0,
            },
        )
    }
}

/// Every context that `build` accepts satisfies what the transfer relies on:
/// its entry point is executable under the regions it was checked against,
/// and its stack pointer is aligned and lies inside the stack, with the
/// reserved sixteen bytes above it.
pub proof fn lemma_built_context_is_safe(
    regions: Seq<RegionModel>,
    entry_address: u64,
    stack: StackRegion,
)
    ensures
        build_spec(regions, entry_address, stack) matches Ok(ctx) ==> {
            &&& executable_at(regions, ctx.entry_point as u64)
            &&& stack_pointer_of(ctx.stack_base, ctx.stack_size) % 16 == 0
            &&& ctx.stack_base <= stack_pointer_of(ctx.stack_base, ctx.stack_size)
            &&& stack_pointer_of(ctx.stack_base, ctx.stack_size) + 16 <= ctx.stack_base
                + ctx.stack_size
            &&& others_cleared(registers_of(ctx))
        },
{
}

/// The bound on the stack is the alignment rule and nothing more: a stack
/// that does not wrap around the address space is usable exactly if a
/// sixteen-aligned address lies in it with sixteen bytes of it above.
pub proof fn lemma_usable_is_the_alignment_rule(base: usize, size: usize)
    requires
        base + size <= usize::MAX,
    ensures
        stack_usable(base, size) <==> exists|p: int|
            base <= p && p + 16 <= base + size && #[trigger] (p % 16) == 0,
{
    let sp = stack_pointer_of(base, size);
    if stack_usable(base, size) {
        assert(base <= sp && sp + 16 <= base + size && sp % 16 == 0);
    }
    if exists|p: int| base <= p && p + 16 <= base + size && #[trigger] (p % 16) == 0 {
        let p = choose|p: int| base <= p && p + 16 <= base + size && #[trigger] (p % 16) == 0;
        let top = base + size - 16;
        assert(p <= top);
        assert(p <= top - top % 16) by {
            assert(p == 16 * (p / 16));
            assert(top == 16 * (top / 16) + top % 16);
            assert(p / 16 <= top / 16);
        }
    }
}

} // verus!
