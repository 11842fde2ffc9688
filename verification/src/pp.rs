//! Pretty printing of a backtrace: one line of text for each logical frame.

use vstd::prelude::*;
use vstd::string::StringExecFns;
use crate::symbolicate::{SymbolicatedFrame, SymbolicatedFrameView};
use crate::text::{append_decimal, decimal};

verus! {

/// The column of a source position as it is written behind the line, or
/// nothing where the column is not known.
pub open spec fn column_text(column: Option<u32>) -> Seq<char> {
    match column {
        Some(column) => ":"@ + decimal(column as nat),
        None => Seq::empty(),
    }
}

/// The mark at the end of the line of an exception frame.
pub open spec fn exception_mark(is_exception: bool) -> Seq<char> {
    if is_exception {
        " <exception entry>"@
    } else {
        Seq::empty()
    }
}

/// The line of one frame: its index, the function, and the source position
/// as file, line and, where it is known, column. The line of an exception
/// frame ends with a mark.
pub open spec fn line_text(frame: SymbolicatedFrameView) -> Seq<char> {
    decimal(frame.index) + ": "@ + frame.function_name + " at "@ + frame.file_path + ":"@
        + decimal(frame.line as nat) + column_text(frame.column) + exception_mark(
        frame.is_exception,
    )
}

/// How many of `total` frames are shown under a limit.
pub open spec fn shown_count(total: nat, limit: nat) -> nat {
    if limit < total {
        limit
    } else {
        total
    }
}

/// The lines of a backtrace under a limit: those of the first `limit` frames,
/// or of all frames where there are no more than that.
pub open spec fn rendered(frames: Seq<SymbolicatedFrameView>, limit: nat) -> Seq<Seq<char>> {
    Seq::new(shown_count(frames.len(), limit), |i: int| line_text(frames[i]))
}

/// Writes the line of one frame.
pub fn render_line(frame: &SymbolicatedFrame) -> (line: String)
    ensures
        line@ == line_text(frame@),
{
    let mut line = String::new();
    append_decimal(&mut line, frame.index as u64);
    line.append(": ");
    line.append(frame.function_name.as_str());
    line.append(" at ");
    line.append(frame.file_path.as_str());
    line.append(":");
    append_decimal(&mut line, frame.line as u64);
    let ghost position = line@;
    assert(position =~= decimal(frame@.index) + ": "@ + frame@.function_name + " at "@
        + frame@.file_path + ":"@ + decimal(frame@.line as nat));
    match frame.column {
        Some(column) => {
            line.append(":");
            append_decimal(&mut line, column as u64);
            assert(line@ =~= position + column_text(frame@.column));
        },
        None => {
            assert(line@ =~= position + column_text(frame@.column));
        },
    }
    let ghost located = line@;
    if frame.is_exception {
        line.append(" <exception entry>");
    }
    assert(line@ =~= located + exception_mark(frame@.is_exception));
    line
}

/// Writes the lines of a backtrace, innermost frame first. No more than
/// `limit` frames are shown: the frames behind them are left out.
pub fn backtrace(frames: &Vec<SymbolicatedFrame>, limit: usize) -> (lines: Vec<String>)
    ensures
        lines.deep_view() == rendered(frames.deep_view(), limit as nat),
{
    let count = if limit < frames.len() {
        limit
    } else {
        frames.len()
    };
    let mut lines: Vec<String> = Vec::new();
    let mut i: usize = 0;
    while i < count
        invariant
            i <= count <= frames.len(),
            count == shown_count(frames.deep_view().len(), limit as nat),
            lines.len() == i,
            forall|j: int| 0 <= j < i ==> (#[trigger] lines@[j])@ == line_text(frames@[j]@),
        decreases count - i,
    {
        lines.push(render_line(&frames[i]));
        i += 1;
    }
    assert(lines.deep_view() =~= rendered(frames.deep_view(), limit as nat));
    lines
}

} // verus!
