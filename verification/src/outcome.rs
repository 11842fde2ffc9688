//! The terminal classification of a run and its two mappings: the diagnostic
//! line that reports it and the exit code that the host process ends with.

use vstd::prelude::*;
use crate::diagnostic::{emit, Diagnostic, DiagnosticView, Severity};
use crate::frame::{has_exception_frame, FrameStore, RamBounds, RawFrame};

verus! {

/// Exit code of a host process that ends because the target program failed.
pub const SIGABRT: i32 = 134;

/// Target program outcome.
#[derive(Clone, Copy, Debug, PartialEq, Eq, Structural)]
pub enum Outcome {
    /// The target stopped on an exception.
    HardFault,
    /// The target halted without error.
    Normal,
    /// The target's stack left the RAM that it may occupy.
    StackOverflow,
}

/// The exit code that stands for an outcome.
pub open spec fn exit_code_of(outcome: Outcome) -> i32 {
    match outcome {
        Outcome::Normal => 0,
        Outcome::HardFault => SIGABRT,
        Outcome::StackOverflow => SIGABRT,
    }
}

/// The line that reports an outcome: one line for each, an error unless the
/// target halted without one.
pub open spec fn log_line_of(outcome: Outcome) -> DiagnosticView {
    match outcome {
        Outcome::StackOverflow => DiagnosticView {
            severity: Severity::Error,
            message: "the program has overflowed its stack"@,
        },
        Outcome::HardFault => DiagnosticView {
            severity: Severity::Error,
            message: "the program panicked"@,
        },
        Outcome::Normal => DiagnosticView {
            severity: Severity::Info,
            message: "device halted without error"@,
        },
    }
}

/// The outcome that a walk of the call stack shows. The stack has overflowed
/// where the stack pointer of the last frame is outside the RAM bounds.
/// Failing that, an exception frame among the frames tells of a fault.
pub open spec fn classification(frames: Seq<RawFrame>, ram: RamBounds) -> Outcome {
    if frames.len() > 0 && !ram.holds(frames.last().stack_pointer) {
        Outcome::StackOverflow
    } else if has_exception_frame(frames) {
        Outcome::HardFault
    } else {
        Outcome::Normal
    }
}

/// Converts an `Outcome` to an exit code.
pub fn to_exit_code(outcome: Outcome) -> (code: i32)
    ensures
        code == exit_code_of(outcome),
        outcome is Normal <==> code == 0,
{
    match outcome {
        Outcome::HardFault | Outcome::StackOverflow => SIGABRT,
        Outcome::Normal => 0,
    }
}

/// The line that reports an outcome.
pub fn to_log_line(outcome: Outcome) -> (line: Diagnostic)
    ensures
        line@ == log_line_of(outcome),
{
    match outcome {
        Outcome::StackOverflow => Diagnostic {
            severity: Severity::Error,
            message: "the program has overflowed its stack".to_owned(),
        },
        Outcome::HardFault => Diagnostic {
            severity: Severity::Error,
            message: "the program panicked".to_owned(),
        },
        Outcome::Normal => Diagnostic {
            severity: Severity::Info,
            message: "device halted without error".to_owned(),
        },
    }
}

/// Derives the outcome of a run from the frames of its unwind and the RAM
/// bounds. It depends on nothing else, so the same frames and bounds give
/// the same outcome every time.
pub fn classify(store: &FrameStore, ram: &RamBounds) -> (outcome: Outcome)
    ensures
        outcome == classification(store.raw_frames@, *ram),
        outcome is StackOverflow <==> store.raw_frames@.len() > 0 && (
        store.raw_frames@.last().stack_pointer < ram.lower || store.raw_frames@.last().stack_pointer
            > ram.upper),
        outcome is HardFault <==> !(outcome is StackOverflow) && has_exception_frame(
            store.raw_frames@,
        ),
{
    let count = store.raw_frames.len();
    if count > 0 && !ram.contains(store.raw_frames[count - 1].stack_pointer) {
        Outcome::StackOverflow
    } else if store.contains_exception() {
        Outcome::HardFault
    } else {
        Outcome::Normal
    }
}

impl Outcome {
    /// Reports the outcome: adds exactly one line to the sink.
    pub fn log(&self, sink: &mut Vec<Diagnostic>)
        ensures
            final(sink).deep_view() == old(sink).deep_view().push(log_line_of(*self)),
    {
        let line = to_log_line(*self);
        emit(sink, line.severity, line.message);
    }
}

impl From<Outcome> for i32 {
    /// Converts an `Outcome` to an exit code.
    fn from(outcome: Outcome) -> (code: i32) {
        to_exit_code(outcome)
    }
}

impl vstd::std_specs::convert::FromSpecImpl<Outcome> for i32 {
    open spec fn obeys_from_spec() -> bool {
        true
    }

    open spec fn from_spec(outcome: Outcome) -> i32 {
        exit_code_of(outcome)
    }
}

/// Whether the stack has overflowed is told by the stack pointer of the last
/// frame alone: it has if and only if that stack pointer is outside the RAM
/// bounds. Without a frame there is no overflow.
pub proof fn lemma_overflow_is_told_by_the_last_stack_pointer(frames: Seq<RawFrame>, ram: RamBounds)
    ensures
        classification(frames, ram) is StackOverflow <==> frames.len() > 0 && (
        frames.last().stack_pointer < ram.lower || frames.last().stack_pointer > ram.upper),
{
}

/// The exit code tells a failure from a run without error, and tells no
/// more: both failures end the host process with the same code.
pub proof fn lemma_exit_code_tells_failure(outcome: Outcome)
    ensures
        exit_code_of(outcome) == 0 <==> outcome is Normal,
        !(outcome is Normal) ==> exit_code_of(outcome) == SIGABRT,
{
}

} // verus!
