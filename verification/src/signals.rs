//! Native fault translator: from a hardware trap of the host to the exception
//! code that a guest expects, and the life cycle of the translator.
//!
//! The decisions are pure, so that they can be exercised with made-up fault
//! records. Installing the handlers, writing the log line and ending the
//! process are left to the caller, who performs the action that each step
//! returns.

use vstd::prelude::*;

verus! {

/// Guest exception code of an access violation.
pub const EXCEPTION_ACCESS_VIOLATION: u32 = 0xC000_0005;

/// Guest exception code of an illegal instruction.
pub const EXCEPTION_ILLEGAL_INSTRUCTION: u32 = 0xC000_001D;

/// Guest exception code of a failed page access.
pub const EXCEPTION_IN_PAGE_ERROR: u32 = 0xC000_0006;

/// The hardware traps that are translated.
#[derive(Clone, Copy, Debug, PartialEq, Eq, Structural)]
pub enum FaultKind {
    IllegalInstruction,
    SegmentationViolation,
    BusError,
}

/// The host's signal numbers of the three traps.
#[derive(Clone, Copy, Debug, PartialEq, Eq, Structural)]
pub struct SignalNumbers {
    pub illegal_instruction: i32,
    pub segmentation_violation: i32,
    pub bus_error: i32,
}

/// What is done about a fault. In this design every fault ends the process,
/// with the given exit code.
#[derive(Clone, Copy, Debug, PartialEq, Eq, Structural)]
pub enum RecoveryDecision {
    Terminate { exit_code: i32 },
}

/// One delivered fault: its kind, the faulting address, the guest exception
/// code it is translated to, and what is done about it.
#[derive(Clone, Copy, Debug, PartialEq, Eq, Structural)]
pub struct FaultRecord {
    pub kind: FaultKind,
    pub address: u64,
    pub guest_code: u32,
    pub decision: RecoveryDecision,
}

/// The life cycle of the translator.
#[derive(Clone, Copy, Debug, PartialEq, Eq, Structural)]
pub enum TranslatorState {
    Uninstalled,
    Installed,
    Handling(FaultRecord),
    Terminated(FaultRecord),
}

/// What happens to the translator.
#[derive(Clone, Copy, Debug, PartialEq, Eq, Structural)]
pub enum TranslatorEvent {
    /// The handlers are to be installed.
    Install,
    /// A signal was delivered, with the faulting address.
    Signal { number: i32, address: u64 },
    /// The translation of the fault in hand was logged.
    Logged,
}

/// What the caller has to do after a step.
#[derive(Clone, Copy, Debug, PartialEq, Eq, Structural)]
pub enum TranslatorAction {
    /// Nothing.
    Nothing,
    /// Install the handler for these three signals.
    InstallHandlers(SignalNumbers),
    /// Log the translation of this fault.
    Log(FaultRecord),
    /// End the process with this exit code.
    Exit(i32),
}

/// The guest exception code that a fault is translated to.
pub open spec fn guest_code_of(kind: FaultKind) -> u32 {
    match kind {
        FaultKind::SegmentationViolation => EXCEPTION_ACCESS_VIOLATION,
        FaultKind::IllegalInstruction => EXCEPTION_ILLEGAL_INSTRUCTION,
        FaultKind::BusError => EXCEPTION_IN_PAGE_ERROR,
    }
}

/// The fault that a signal number stands for. Where the host gives two of
/// the traps one number, segmentation violation goes before illegal
/// instruction, and that before bus error.
pub open spec fn kind_of_signal(numbers: SignalNumbers, number: i32) -> Option<FaultKind> {
    if number == numbers.segmentation_violation {
        Some(FaultKind::SegmentationViolation)
    } else if number == numbers.illegal_instruction {
        Some(FaultKind::IllegalInstruction)
    } else if number == numbers.bus_error {
        Some(FaultKind::BusError)
    } else {
        None
    }
}

/// The record of a fault: the process is ended with the signal's number as
/// its exit code.
pub open spec fn record_of(kind: FaultKind, number: i32, address: u64) -> FaultRecord {
    FaultRecord {
        kind,
        address,
        guest_code: guest_code_of(kind),
        decision: RecoveryDecision::Terminate { exit_code: number },
    }
}

/// The exit code that a decision ends the process with.
pub open spec fn exit_code_of(decision: RecoveryDecision) -> i32 {
    match decision {
        RecoveryDecision::Terminate { exit_code } => exit_code,
    }
}

/// One step of the translator: the state after the event, and the action to
/// perform. An event that the state does not expect changes nothing.
pub open spec fn step_spec(
    numbers: SignalNumbers,
    state: TranslatorState,
    event: TranslatorEvent,
) -> (TranslatorState, TranslatorAction) {
    match (state, event) {
        (TranslatorState::Uninstalled, TranslatorEvent::Install) => (
            TranslatorState::Installed,
            TranslatorAction::InstallHandlers(numbers),
        ),
        (TranslatorState::Installed, TranslatorEvent::Signal { number, address }) => {
            match kind_of_signal(numbers, number) {
                Some(kind) => (
                    TranslatorState::Handling(record_of(kind, number, address)),
                    TranslatorAction::Log(record_of(kind, number, address)),
                ),
                None => (state, TranslatorAction::Nothing),
            }
        },
        (TranslatorState::Handling(record), TranslatorEvent::Logged) => (
            TranslatorState::Terminated(record),
            TranslatorAction::Exit(exit_code_of(record.decision)),
        ),
        _ => (state, TranslatorAction::Nothing),
    }
}

/// The log line of a translated fault.
pub open spec fn message_of(kind: FaultKind) -> Seq<char> {
    match kind {
        FaultKind::SegmentationViolation => "Pancho-Signals: Intercepted SIGSEGV (Access Violation). Translating to 0xC0000005..."@,
        FaultKind::IllegalInstruction => "Pancho-Signals: Intercepted SIGILL (Illegal Instruction). Translating to 0xC000001D..."@,
        FaultKind::BusError => "Pancho-Signals: Intercepted SIGBUS (Bus Error). Translating to 0xC0000006..."@,
    }
}

impl FaultKind {
    /// The guest exception code that the fault is translated to.
    pub fn guest_code(&self) -> (code: u32)
        ensures
            code == guest_code_of(*self),
    {
        match self {
            FaultKind::SegmentationViolation => EXCEPTION_ACCESS_VIOLATION,
            FaultKind::IllegalInstruction => EXCEPTION_ILLEGAL_INSTRUCTION,
            FaultKind::BusError => EXCEPTION_IN_PAGE_ERROR,
        }
    }

    /// The fault that a signal number stands for, if it is one of the three.
    pub fn from_signal(numbers: &SignalNumbers, number: i32) -> (kind: Option<FaultKind>)
        ensures
            kind == kind_of_signal(*numbers, number),
    {
        if number == numbers.segmentation_violation {
            Some(FaultKind::SegmentationViolation)
        } else if number == numbers.illegal_instruction {
            Some(FaultKind::IllegalInstruction)
        } else if number == numbers.bus_error {
            Some(FaultKind::BusError)
        } else {
            None
        }
    }

    /// The log line of the translated fault: a constant, so that a handler
    /// can write it without allocating.
    pub fn message(&self) -> (line: &'static str)
        ensures
            line@ == message_of(*self),
    {
        match self {
            FaultKind::SegmentationViolation => "Pancho-Signals: Intercepted SIGSEGV (Access Violation). Translating to 0xC0000005...",
            FaultKind::IllegalInstruction => "Pancho-Signals: Intercepted SIGILL (Illegal Instruction). Translating to 0xC000001D...",
            FaultKind::BusError => "Pancho-Signals: Intercepted SIGBUS (Bus Error). Translating to 0xC0000006...",
        }
    }
}

impl FaultRecord {
    /// The record of a delivered signal, if it is one of the three traps.
    pub fn translate(numbers: &SignalNumbers, number: i32, address: u64) -> (record: Option<
        FaultRecord,
    >)
        ensures
            record == match kind_of_signal(*numbers, number) {
                Some(kind) => Some(record_of(kind, number, address)),
                None => None,
            },
    {
        match FaultKind::from_signal(numbers, number) {
            Some(kind) => Some(
                FaultRecord {
                    kind,
                    address,
                    guest_code: kind.guest_code(),
                    decision: RecoveryDecision::Terminate { exit_code: number },
                },
            ),
            None => None,
        }
    }
}

/// The fault policy of a process: the host's signal numbers and the state of
/// the translator.
#[derive(Clone, Copy, Debug, PartialEq, Eq, Structural)]
pub struct FaultTranslator {
    pub numbers: SignalNumbers,
    pub state: TranslatorState,
}

impl FaultTranslator {
    /// A translator whose handlers are not installed yet.
    pub fn new(numbers: SignalNumbers) -> (translator: FaultTranslator)
        ensures
            translator.numbers == numbers,
            translator.state == TranslatorState::Uninstalled,
    {
        FaultTranslator { numbers, state: TranslatorState::Uninstalled }
    }

    /// Takes one event and returns the action to perform.
    pub fn step(&mut self, event: TranslatorEvent) -> (action: TranslatorAction)
        ensures
            final(self).numbers == old(self).numbers,
            (final(self).state, action) == step_spec(old(self).numbers, old(self).state, event),
    {
        match (self.state, event) {
            (TranslatorState::Uninstalled, TranslatorEvent::Install) => {
                self.state = TranslatorState::Installed;
                TranslatorAction::InstallHandlers(self.numbers)
            },
            (TranslatorState::Installed, TranslatorEvent::Signal { number, address }) => {
                match FaultRecord::translate(&self.numbers, number, address) {
                    Some(record) => {
                        self.state = TranslatorState::Handling(record);
                        TranslatorAction::Log(record)
                    },
                    None => TranslatorAction::Nothing,
                }
            },
            (TranslatorState::Handling(record), TranslatorEvent::Logged) => {
                self.state = TranslatorState::Terminated(record);
                match record.decision {
                    RecoveryDecision::Terminate { exit_code } => TranslatorAction::Exit(exit_code),
                }
            },
            _ => TranslatorAction::Nothing,
        }
    }

    /// Whether control may be transferred to a guest: only while the handlers
    /// are installed and no fault is in hand.
    pub fn may_transfer(&self) -> (allowed: bool)
        ensures
            allowed == (self.state == TranslatorState::Installed),
    {
        match self.state {
            TranslatorState::Installed => true,
            _ => false,
        }
    }
}

/// A fault is never resumed: from the state that handles a fault the only
/// step that changes anything ends in termination, with the exit code that
/// the fault's record decided, and nothing leaves the terminated state.
pub proof fn lemma_faults_terminate(
    numbers: SignalNumbers,
    record: FaultRecord,
    event: TranslatorEvent,
)
    ensures
        ({
            let (next, action) = step_spec(numbers, TranslatorState::Handling(record), event);
            ||| next == TranslatorState::Handling(record) && action == TranslatorAction::Nothing
            ||| next == TranslatorState::Terminated(record) && action == TranslatorAction::Exit(
                exit_code_of(record.decision),
            )
        }),
        step_spec(numbers, TranslatorState::Terminated(record), event) == (
            TranslatorState::Terminated(record),
            TranslatorAction::Nothing,
        ),
{
}

/// A signal is translated only once the handlers are installed: before that
/// it changes nothing.
pub proof fn lemma_install_precedes_handling(numbers: SignalNumbers, number: i32, address: u64)
    ensures
        step_spec(
            numbers,
            TranslatorState::Uninstalled,
            TranslatorEvent::Signal { number, address },
        ) == (TranslatorState::Uninstalled, TranslatorAction::Nothing),
        step_spec(numbers, TranslatorState::Uninstalled, TranslatorEvent::Install).0
            == TranslatorState::Installed,
{
}

} // verus!
