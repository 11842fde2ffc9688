//! Diagnostics: the lines that the library hands to its caller's logger in
//! place of writing them itself.

use vstd::prelude::*;

verus! {

/// How grave a diagnostic line is.
#[derive(Clone, Copy, Debug, PartialEq, Eq, Structural)]
pub enum Severity {
    Info,
    Warn,
    Error,
}

/// One diagnostic line.
#[derive(Clone, Debug, PartialEq, Eq)]
pub struct Diagnostic {
    pub severity: Severity,
    pub message: String,
}

/// A diagnostic line as a value of mathematics.
pub struct DiagnosticView {
    pub severity: Severity,
    pub message: Seq<char>,
}

impl View for Diagnostic {
    type V = DiagnosticView;

    open spec fn view(&self) -> DiagnosticView {
        DiagnosticView { severity: self.severity, message: self.message@ }
    }
}

impl DeepView for Diagnostic {
    type V = DiagnosticView;

    open spec fn deep_view(&self) -> DiagnosticView {
        self@
    }
}

/// Adds one line to the end of a sink.
pub fn emit(sink: &mut Vec<Diagnostic>, severity: Severity, message: String)
    ensures
        final(sink).deep_view() == old(sink).deep_view().push(
            DiagnosticView { severity, message: message@ },
        ),
{
    sink.push(Diagnostic { severity, message });
    assert(sink.deep_view() =~= old(sink).deep_view().push(
        DiagnosticView { severity, message: message@ },
    ));
}

} // verus!
