//! The print policy: whether the backtrace is shown, how much of it, and
//! which diagnostics go with it.

use vstd::prelude::*;
use vstd::string::StringExecFns;
use crate::diagnostic::{emit, Diagnostic, DiagnosticView, Severity};
use crate::frame::{has_exception_frame, FrameStore, ProcessingError, RamBounds, Trace};
use crate::image::ProgramImage;
use crate::outcome::{classification, classify, Outcome};
use crate::pp::{backtrace, line_text, rendered};
use crate::settings::{BacktraceOptions, Settings};
use crate::symbolicate::{frames, symbolicated, SymbolicatedFrameView};
use crate::text::{address_text, append_address};

verus! {

/// What `print` hands back: the outcome of the run and, where the backtrace
/// is to be shown, its lines and the diagnostics that go with it.
#[derive(Clone, Debug, PartialEq, Eq)]
pub struct Backtrace {
    pub outcome: Outcome,
    /// Whether the backtrace is to be shown.
    pub rendered: bool,
    /// The lines of the backtrace, innermost frame first.
    pub lines: Vec<String>,
    /// What to tell the user about the unwind that the lines come from.
    pub diagnostics: Vec<Diagnostic>,
}

/// Whether the backtrace is shown: always where the user asks for it, and
/// whatever the user asks for where the stack has overflowed, the call stack
/// is corrupted or a frame is an exception frame. `Auto` and `Never` differ
/// in nothing.
pub open spec fn render_wanted(
    mode: BacktraceOptions,
    outcome: Outcome,
    corrupted: bool,
    contains_exception: bool,
) -> bool {
    mode == BacktraceOptions::Always || outcome == Outcome::StackOverflow || corrupted
        || contains_exception
}

/// The most frames to show: the limit that was asked for, where 0 asks for
/// all frames that there are.
pub open spec fn effective_limit(requested: u32, total: nat) -> nat {
    if requested == 0 {
        total
    } else {
        requested as nat
    }
}

/// What went wrong in a read, in words.
pub open spec fn error_text(error: ProcessingError) -> Seq<char> {
    match error {
        ProcessingError::RegisterRead => "could not read the registers of the core"@,
        ProcessingError::MemoryRead { address } => "could not read the memory at "@ + address_text(
            address,
        ),
    }
}

/// The line that warns of a corrupted call stack.
pub open spec fn corruption_warning() -> DiagnosticView {
    DiagnosticView {
        severity: Severity::Warn,
        message: "call stack was corrupted; unwinding could not be completed"@,
    }
}

/// The line that tells of the read that cut the unwind short.
pub open spec fn incompleteness_error(error: ProcessingError) -> DiagnosticView {
    DiagnosticView {
        severity: Severity::Error,
        message: "error occurred during backtrace creation: "@ + error_text(error)
            + "\n               the backtrace may be incomplete."@,
    }
}

/// The diagnostics that go with a backtrace that is shown: a warning where
/// the call stack is corrupted, then an error where a read failed.
pub open spec fn incompleteness(trace: Trace) -> Seq<DiagnosticView> {
    let warning = if trace.corrupted {
        seq![corruption_warning()]
    } else {
        Seq::empty()
    };
    match trace.processing_error {
        Some(error) => warning.push(incompleteness_error(error)),
        None => warning,
    }
}

/// Decides whether the backtrace is shown.
pub fn should_render(
    mode: BacktraceOptions,
    outcome: Outcome,
    corrupted: bool,
    contains_exception: bool,
) -> (render: bool)
    ensures
        render == render_wanted(mode, outcome, corrupted, contains_exception),
        mode == BacktraceOptions::Always ==> render,
        outcome == Outcome::StackOverflow || corrupted || contains_exception ==> render,
{
    mode == BacktraceOptions::Always || outcome == Outcome::StackOverflow || corrupted
        || contains_exception
}

/// Resolves the limit on the frames to show against the number of frames
/// that there are: 0 becomes that number, any other limit stays. The
/// settings are left as they are.
pub fn resolve_limit(requested: u32, total: usize) -> (limit: usize)
    ensures
        limit == effective_limit(requested, total as nat),
        requested == 0 ==> limit == total,
{
    if requested == 0 {
        total
    } else {
        requested as usize
    }
}

/// Describes a failed read in words.
pub fn describe(error: ProcessingError) -> (text: String)
    ensures
        text@ == error_text(error),
{
    match error {
        ProcessingError::RegisterRead => "could not read the registers of the core".to_owned(),
        ProcessingError::MemoryRead { address } => {
            let mut text = "could not read the memory at ".to_owned();
            append_address(&mut text, address);
            text
        },
    }
}

/// Adds to the sink the diagnostics that go with a backtrace that is shown.
pub fn warn_of_incompleteness(unwind: &FrameStore, sink: &mut Vec<Diagnostic>)
    ensures
        final(sink).deep_view() == old(sink).deep_view() + incompleteness(unwind@),
{
    if unwind.corrupted {
        emit(
            sink,
            Severity::Warn,
            "call stack was corrupted; unwinding could not be completed".to_owned(),
        );
    }
    match unwind.processing_error {
        Some(error) => {
            let mut message = "error occurred during backtrace creation: ".to_owned();
            message.append(describe(error).as_str());
            message.append("\n               the backtrace may be incomplete.");
            emit(sink, Severity::Error, message);
        },
        None => {},
    }
    assert(sink.deep_view() =~= old(sink).deep_view() + incompleteness(unwind@));
}

/// Classifies the run that an unwind comes from and, where the policy calls
/// for it, prints the backtrace: resolves the frames to functions and source
/// positions and writes a line for each, up to the limit of the settings.
pub fn print(
    unwind: &FrameStore,
    image: &ProgramImage,
    ram: &RamBounds,
    settings: &Settings,
) -> (report: Backtrace)
    ensures
        report.outcome == classification(unwind.raw_frames@, *ram),
        report.rendered == render_wanted(
            settings.backtrace,
            report.outcome,
            unwind.corrupted,
            has_exception_frame(unwind.raw_frames@),
        ),
        report.rendered ==> report.lines.deep_view() == rendered(
            symbolicated(image, unwind.raw_frames@, settings.base_directory()),
            effective_limit(
                settings.backtrace_limit,
                symbolicated(image, unwind.raw_frames@, settings.base_directory()).len(),
            ),
        ),
        report.rendered ==> report.diagnostics.deep_view() == incompleteness(unwind@),
        !report.rendered ==> report.lines@.len() == 0 && report.diagnostics@.len() == 0,
{
    let outcome = classify(unwind, ram);
    let render = should_render(
        settings.backtrace,
        outcome,
        unwind.corrupted,
        unwind.contains_exception(),
    );
    let mut lines: Vec<String> = Vec::new();
    let mut diagnostics: Vec<Diagnostic> = Vec::new();
    if render {
        let frames = frames(&unwind.raw_frames, settings, image);
        assert(frames.deep_view().len() == frames.len());
        let limit = resolve_limit(settings.backtrace_limit, frames.len());
        lines = backtrace(&frames, limit);
        warn_of_incompleteness(unwind, &mut diagnostics);
        assert(diagnostics.deep_view() =~= incompleteness(unwind@));
    }
    Backtrace { outcome, rendered: render, lines, diagnostics }
}

/// A limit of 0 never truncates: every frame has its line.
pub proof fn lemma_limit_zero_shows_all(frames: Seq<SymbolicatedFrameView>)
    ensures
        effective_limit(0, frames.len()) == frames.len(),
        rendered(frames, effective_limit(0, frames.len())).len() == frames.len(),
        forall|i: int|
            0 <= i < frames.len() ==> (#[trigger] rendered(
                frames,
                effective_limit(0, frames.len()),
            )[i]) == line_text(frames[i]),
{
}

/// Any other limit shows the first frames up to the limit and leaves out the
/// frames behind them.
pub proof fn lemma_limit_truncates_the_tail(frames: Seq<SymbolicatedFrameView>, requested: u32)
    requires
        requested != 0,
    ensures
        rendered(frames, effective_limit(requested, frames.len())).len() == if requested
            < frames.len() {
            requested as nat
        } else {
            frames.len()
        },
        forall|i: int|
            0 <= i < rendered(frames, effective_limit(requested, frames.len())).len()
                ==> (#[trigger] rendered(frames, effective_limit(requested, frames.len()))[i])
                == line_text(frames[i]),
{
}

/// Render gating is monotonic: a signal that calls for the backtrace is never
/// overridden. With `Always` the backtrace is shown whatever the run was
/// like; after a stack overflow, with a corrupted call stack or with an
/// exception frame it is shown whatever the mode. `Auto` and `Never` give the
/// same decision on every run.
pub proof fn lemma_render_gating_is_monotonic(
    mode: BacktraceOptions,
    outcome: Outcome,
    corrupted: bool,
    contains_exception: bool,
)
    ensures
        render_wanted(BacktraceOptions::Always, outcome, corrupted, contains_exception),
        outcome == Outcome::StackOverflow || corrupted || contains_exception ==> render_wanted(
            mode,
            outcome,
            corrupted,
            contains_exception,
        ),
        render_wanted(BacktraceOptions::Auto, outcome, corrupted, contains_exception)
            == render_wanted(BacktraceOptions::Never, outcome, corrupted, contains_exception),
        render_wanted(mode, outcome, corrupted, contains_exception) ==> render_wanted(
            mode,
            Outcome::StackOverflow,
            corrupted,
            contains_exception,
        ) && render_wanted(mode, outcome, true, contains_exception) && render_wanted(
            mode,
            outcome,
            corrupted,
            true,
        ),
{
}

} // verus!
