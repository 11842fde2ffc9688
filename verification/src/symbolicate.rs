//! The symbolicator: maps the program counter of each raw frame to the
//! function and the source position that it lies in, and splits a frame into
//! several where calls were inlined.

use vstd::prelude::*;
use vstd::string::StrSliceExecFns;
use crate::frame::RawFrame;
use crate::image::{covering, InlinedCall, ProgramImage};
use crate::settings::Settings;

verus! {

/// One logical frame of the backtrace.
#[derive(Clone, Debug, PartialEq, Eq)]
pub struct SymbolicatedFrame {
    /// The position of the frame in the backtrace, counted from 0.
    pub index: usize,
    pub function_name: String,
    pub file_path: String,
    pub line: u32,
    pub column: Option<u32>,
    /// The frame is a call that was inlined into the frame behind it.
    pub is_inline: bool,
    /// The raw frame that this one comes from is an exception frame.
    pub is_exception: bool,
}

/// A logical frame as a value of mathematics.
pub struct SymbolicatedFrameView {
    pub index: nat,
    pub function_name: Seq<char>,
    pub file_path: Seq<char>,
    pub line: u32,
    pub column: Option<u32>,
    pub is_inline: bool,
    pub is_exception: bool,
}

/// A source position.
pub struct Location {
    pub file: Seq<char>,
    pub line: u32,
    pub column: Option<u32>,
}

impl View for SymbolicatedFrame {
    type V = SymbolicatedFrameView;

    open spec fn view(&self) -> SymbolicatedFrameView {
        SymbolicatedFrameView {
            index: self.index as nat,
            function_name: self.function_name@,
            file_path: self.file_path@,
            line: self.line,
            column: self.column,
            is_inline: self.is_inline,
            is_exception: self.is_exception,
        }
    }
}

impl DeepView for SymbolicatedFrame {
    type V = SymbolicatedFrameView;

    open spec fn deep_view(&self) -> SymbolicatedFrameView {
        self@
    }
}

/// The name that stands for a function or a file that the image does not
/// tell.
pub open spec fn unknown() -> Seq<char> {
    "<unknown>"@
}

/// Where in an absolute path the part below a directory begins, if the path
/// lies below the directory: behind the directory and the separator that
/// follows it.
pub open spec fn relative_start(path: Seq<char>, directory: Seq<char>) -> Option<int> {
    if directory.len() > 0 && path.len() > directory.len() && path[0] == '/' && path.subrange(
        0,
        directory.len() as int,
    ) == directory {
        if directory.last() == '/' {
            Some(directory.len() as int)
        } else if path[directory.len() as int] == '/' && path.len() > directory.len() + 1 {
            Some(directory.len() + 1 as int)
        } else {
            None
        }
    } else {
        None
    }
}

/// A path as it is shown: relative to the base directory where there is one
/// and the path is absolute and lies below it, else unchanged.
pub open spec fn shown_path(path: Seq<char>, base: Option<Seq<char>>) -> Seq<char> {
    match base {
        Some(directory) => match relative_start(path, directory) {
            Some(start) => path.skip(start),
            None => path,
        },
        None => path,
    }
}

/// The name of the function that encloses an address.
pub open spec fn function_at(image: &ProgramImage, address: u32) -> Seq<char> {
    match covering(image.symbol_table(), address) {
        Some(i) => image.symbol_table()[i].name@,
        None => unknown(),
    }
}

/// The source position of an address: that of the last row of the
/// line-number table at or below it.
pub open spec fn location_at(image: &ProgramImage, address: u32) -> Location {
    match covering(image.line_table(), address) {
        Some(i) => Location {
            file: image.line_table()[i].file@,
            line: image.line_table()[i].line,
            column: image.line_table()[i].column,
        },
        None => Location { file: unknown(), line: 0, column: None },
    }
}

/// The inlined calls that an address lies in, innermost first.
pub open spec fn inlined_calls_at(image: &ProgramImage, address: u32) -> Seq<InlinedCall> {
    match covering(image.inline_table(), address) {
        Some(i) => image.inline_table()[i].calls@,
        None => Seq::empty(),
    }
}

/// The source position of the frame at `position` of an expansion: the
/// innermost frame is at the position of the address itself, each other frame
/// at the call that was replaced by the frame before it.
pub open spec fn position_in(calls: Seq<InlinedCall>, at_address: Location, position: int)
    -> Location {
    if position == 0 {
        at_address
    } else {
        Location {
            file: calls[position - 1].call_file@,
            line: calls[position - 1].call_line,
            column: calls[position - 1].call_column,
        }
    }
}

/// The logical frames of one raw frame, innermost first: one for each inlined
/// call that its program counter lies in, then the enclosing function. All but
/// the last are marked as inlined, and all are exception frames if the raw
/// frame is one. `first_index` is the index of the first of them.
pub open spec fn expansion(
    image: &ProgramImage,
    frame: RawFrame,
    base: Option<Seq<char>>,
    first_index: nat,
) -> Seq<SymbolicatedFrameView> {
    let calls = inlined_calls_at(image, frame.program_counter);
    let at_address = location_at(image, frame.program_counter);
    Seq::new(
        calls.len() + 1,
        |position: int|
            {
                let location = position_in(calls, at_address, position);
                SymbolicatedFrameView {
                    index: (first_index + position) as nat,
                    function_name: if position < calls.len() {
                        calls[position].function@
                    } else {
                        function_at(image, frame.program_counter)
                    },
                    file_path: shown_path(location.file, base),
                    line: location.line,
                    column: location.column,
                    is_inline: position < calls.len(),
                    is_exception: frame.is_exception_frame,
                }
            },
    )
}

/// The logical frames of a sequence of raw frames: the expansions of the raw
/// frames, one after the other in the order of the raw frames, with indices
/// that count up from 0.
pub open spec fn symbolicated(image: &ProgramImage, frames: Seq<RawFrame>, base: Option<Seq<char>>)
    -> Seq<SymbolicatedFrameView>
    decreases frames.len(),
{
    if frames.len() == 0 {
        Seq::empty()
    } else {
        let before = symbolicated(image, frames.drop_last(), base);
        before + expansion(image, frames.last(), base, before.len())
    }
}

/// Shows a path relative to a directory, if it is absolute and lies below it.
pub fn shorten(path: &str, directory: &str) -> (shown: String)
    ensures
        shown@ == shown_path(path@, Some(directory@)),
{
    let length = path.unicode_len();
    let prefix = directory.unicode_len();
    if prefix == 0 || length <= prefix || path.get_char(0) != '/' {
        return path.to_owned();
    }
    let mut i: usize = 0;
    while i < prefix
        invariant
            i <= prefix,
            prefix == directory@.len(),
            length == path@.len(),
            prefix < length,
            forall|j: int| 0 <= j < i ==> path@[j] == directory@[j],
        decreases prefix - i,
    {
        if path.get_char(i) != directory.get_char(i) {
            assert(path@.subrange(0, prefix as int)[i as int] != directory@[i as int]);
            return path.to_owned();
        }
        i += 1;
    }
    assert(path@.subrange(0, prefix as int) =~= directory@);
    let start = if directory.get_char(prefix - 1) == '/' {
        prefix
    } else if path.get_char(prefix) == '/' && length - prefix > 1 {
        prefix + 1
    } else {
        return path.to_owned();
    };
    let shown = path.substring_char(start, length).to_owned();
    assert(shown@ =~= path@.skip(start as int));
    shown
}

/// Shows a path as the settings ask for it.
fn show(path: &String, settings: &Settings) -> (shown: String)
    ensures
        shown@ == shown_path(path@, settings.base_directory()),
{
    if settings.shorten_paths {
        shorten(path.as_str(), settings.current_dir.as_str())
    } else {
        path.clone()
    }
}

/// Adds the logical frames of one raw frame to the backtrace.
fn expand(
    frame: &RawFrame,
    settings: &Settings,
    image: &ProgramImage,
    frames: &mut Vec<SymbolicatedFrame>,
)
    ensures
        final(frames).deep_view() == old(frames).deep_view() + expansion(
            image,
            *frame,
            settings.base_directory(),
            old(frames).len() as nat,
        ),
{
    let ghost before = frames.deep_view();
    let ghost whole = expansion(image, *frame, settings.base_directory(), frames.len() as nat);
    let address = frame.program_counter;
    let (mut file, mut line, mut column) = match image.line_at(address) {
        Some(entry) => (show(&entry.file, settings), entry.line, entry.column),
        None => ("<unknown>".to_owned(), 0, None),
    };
    assert(file@ == whole[0].file_path && line == whole[0].line && column == whole[0].column)
        by {
        if covering(image.line_table(), address) is None {
            lemma_unknown_is_shown_as_it_is(settings.base_directory());
        }
    }
    let none: Vec<InlinedCall> = Vec::new();
    let calls: &Vec<InlinedCall> = match image.inlined_at(address) {
        Some(range) => &range.calls,
        None => &none,
    };
    assert(calls@ =~= inlined_calls_at(image, address));
    assert(frames.deep_view() =~= before + whole.take(0));
    let mut position: usize = 0;
    while position < calls.len()
        invariant
            position <= calls.len(),
            calls@ == inlined_calls_at(image, address),
            whole == expansion(image, *frame, settings.base_directory(), before.len()),
            address == frame.program_counter,
            frames.deep_view() == before + whole.take(position as int),
            file@ == whole[position as int].file_path,
            line == whole[position as int].line,
            column == whole[position as int].column,
        decreases calls.len() - position,
    {
        let call = &calls[position];
        assert(frames.deep_view().len() == frames.len());
        let inlined = SymbolicatedFrame {
            index: frames.len(),
            function_name: call.function.clone(),
            file_path: file,
            line,
            column,
            is_inline: true,
            is_exception: frame.is_exception_frame,
        };
        assert(inlined@ == whole[position as int]);
        let ghost gathered = frames.deep_view();
        frames.push(inlined);
        assert(frames.deep_view() =~= gathered.push(whole[position as int]));
        assert(gathered.push(whole[position as int]) =~= before + whole.take(position + 1));
        file = show(&call.call_file, settings);
        line = call.call_line;
        column = call.call_column;
        position += 1;
    }
    let function_name = match image.symbol_at(address) {
        Some(symbol) => symbol.name.clone(),
        None => "<unknown>".to_owned(),
    };
    assert(frames.deep_view().len() == frames.len());
    let outermost = SymbolicatedFrame {
        index: frames.len(),
        function_name,
        file_path: file,
        line,
        column,
        is_inline: false,
        is_exception: frame.is_exception_frame,
    };
    assert(outermost@ == whole[position as int]);
    let ghost gathered = frames.deep_view();
    frames.push(outermost);
    assert(frames.deep_view() =~= gathered.push(whole[position as int]));
    assert(gathered.push(whole[position as int]) =~= before + whole);
}

/// The name that stands for an unknown file is no absolute path, so it is
/// shown as it is.
proof fn lemma_unknown_is_shown_as_it_is(base: Option<Seq<char>>)
    ensures
        shown_path(unknown(), base) == unknown(),
{
    reveal_strlit("<unknown>");
}

/// Resolves the raw frames of an unwind to logical frames. A frame whose
/// program counter lies in no function of the image is given the name
/// `<unknown>`, and one without a row of the line-number table the file
/// `<unknown>` and the line 0: no frame is left out.
pub fn frames(
    raw_frames: &Vec<RawFrame>,
    settings: &Settings,
    image: &ProgramImage,
) -> (frames: Vec<SymbolicatedFrame>)
    ensures
        frames.deep_view() == symbolicated(image, raw_frames@, settings.base_directory()),
{
    let mut frames: Vec<SymbolicatedFrame> = Vec::new();
    let mut i: usize = 0;
    assert(frames.deep_view() =~= symbolicated(
        image,
        raw_frames@.take(0),
        settings.base_directory(),
    ));
    while i < raw_frames.len()
        invariant
            i <= raw_frames.len(),
            frames.deep_view() == symbolicated(
                image,
                raw_frames@.take(i as int),
                settings.base_directory(),
            ),
        decreases raw_frames.len() - i,
    {
        assert(raw_frames@.take(i + 1).drop_last() =~= raw_frames@.take(i as int));
        expand(&raw_frames[i], settings, image, &mut frames);
        i += 1;
    }
    assert(raw_frames@.take(i as int) =~= raw_frames@);
    frames
}

/// Symbolication keeps the order of the raw frames: the logical frames of
/// the raw frame at `position` stand together, behind those of all raw frames
/// before it and in front of those of all raw frames behind it. There is at
/// least one of them, and only the last is not marked as inlined.
pub proof fn lemma_symbolication_keeps_order(
    image: &ProgramImage,
    frames: Seq<RawFrame>,
    base: Option<Seq<char>>,
    position: int,
)
    requires
        0 <= position < frames.len(),
    ensures
        ({
            let all = symbolicated(image, frames, base);
            let before = symbolicated(image, frames.take(position), base);
            let upto = symbolicated(image, frames.take(position + 1), base);
            let own = expansion(image, frames[position], base, before.len());
            &&& upto == before + own
            &&& upto.len() <= all.len()
            &&& all.take(upto.len() as int) == upto
            &&& own.len() >= 1
            &&& forall|i: int| 0 <= i < own.len() ==> (#[trigger] own[i]).is_inline == (i + 1
                < own.len())
        }),
    decreases frames.len(),
{
    let all = symbolicated(image, frames, base);
    assert(frames.take(position + 1).drop_last() =~= frames.take(position));
    if position + 1 == frames.len() {
        assert(frames.take(position + 1) =~= frames);
        assert(all.take(all.len() as int) =~= all);
    } else {
        let shorter = frames.drop_last();
        lemma_symbolication_keeps_order(image, shorter, base, position);
        assert(shorter.take(position) =~= frames.take(position));
        assert(shorter.take(position + 1) =~= frames.take(position + 1));
        let upto = symbolicated(image, frames.take(position + 1), base);
        assert(all.take(upto.len() as int) =~= symbolicated(image, shorter, base).take(
            upto.len() as int,
        ));
    }
}

/// The index of a logical frame is its position in the backtrace.
pub proof fn lemma_indices_count_up(
    image: &ProgramImage,
    frames: Seq<RawFrame>,
    base: Option<Seq<char>>,
)
    ensures
        forall|i: int|
            0 <= i < symbolicated(image, frames, base).len() ==> (#[trigger] symbolicated(
                image,
                frames,
                base,
            )[i]).index == i,
    decreases frames.len(),
{
    if frames.len() > 0 {
        lemma_indices_count_up(image, frames.drop_last(), base);
    }
}

/// Symbolication is deterministic: two runs on the same raw frames, with the
/// same image and the same base directory, give the same logical frames.
pub proof fn lemma_symbolication_is_deterministic(
    image: &ProgramImage,
    frames: Seq<RawFrame>,
    base: Option<Seq<char>>,
    first: Seq<SymbolicatedFrameView>,
    second: Seq<SymbolicatedFrameView>,
)
    requires
        first == symbolicated(image, frames, base),
        second == symbolicated(image, frames, base),
    ensures
        first == second,
{
}

} // verus!
