//! What the user asks for: when to show the backtrace and how much of it.

use vstd::prelude::*;
use vstd::string::StrSliceExecFns;

verus! {

/// The number of frames that are shown where the user names no limit.
pub const DEFAULT_BACKTRACE_LIMIT: u32 = 50;

/// When to show the backtrace.
#[derive(Clone, Copy, Debug, PartialEq, Eq, Structural)]
pub enum BacktraceOptions {
    Auto,
    Never,
    Always,
}

/// A text that names none of the options `auto`, `never` and `always`.
#[derive(Clone, Copy, Debug, PartialEq, Eq, Structural)]
pub struct InvalidBacktraceOption;

/// How to show the backtrace.
#[derive(Clone, Debug, PartialEq, Eq)]
pub struct Settings {
    /// The directory that source paths are shown relative to.
    pub current_dir: String,
    pub backtrace: BacktraceOptions,
    /// The most frames to show; 0 stands for all of them.
    pub backtrace_limit: u32,
    /// Whether to show source paths below `current_dir` relative to it.
    pub shorten_paths: bool,
}

/// Whether a text spells a word, in letters of either case: `lower` and
/// `upper` are the word in lower and in upper case.
pub open spec fn spells(text: Seq<char>, lower: Seq<char>, upper: Seq<char>) -> bool {
    &&& text.len() == lower.len()
    &&& text.len() == upper.len()
    &&& forall|i: int| 0 <= i < text.len() ==> text[i] == lower[i] || text[i] == upper[i]
}

/// The option that a text names, whatever the case of its letters.
pub open spec fn option_named(text: Seq<char>) -> Option<BacktraceOptions> {
    if spells(text, "auto"@, "AUTO"@) {
        Some(BacktraceOptions::Auto)
    } else if spells(text, "never"@, "NEVER"@) {
        Some(BacktraceOptions::Never)
    } else if spells(text, "always"@, "ALWAYS"@) {
        Some(BacktraceOptions::Always)
    } else {
        None
    }
}

/// Tells whether a text spells a word, in letters of either case.
fn spells_word(text: &str, lower: &str, upper: &str) -> (r: bool)
    ensures
        r == spells(text@, lower@, upper@),
{
    let length = text.unicode_len();
    if lower.unicode_len() != length || upper.unicode_len() != length {
        return false;
    }
    let mut i: usize = 0;
    while i < length
        invariant
            i <= length,
            length == text@.len(),
            length == lower@.len(),
            length == upper@.len(),
            forall|j: int| 0 <= j < i ==> text@[j] == lower@[j] || text@[j] == upper@[j],
        decreases length - i,
    {
        let c = text.get_char(i);
        if c != lower.get_char(i) && c != upper.get_char(i) {
            return false;
        }
        i += 1;
    }
    true
}

impl BacktraceOptions {
    /// Reads an option from its name: `auto`, `never` or `always`, in letters
    /// of either case. Any other text is an error.
    pub fn parse(text: &str) -> (r: Result<BacktraceOptions, InvalidBacktraceOption>)
        ensures
            r == match option_named(text@) {
                Some(option) => Ok::<BacktraceOptions, InvalidBacktraceOption>(option),
                None => Err(InvalidBacktraceOption),
            },
    {
        if spells_word(text, "auto", "AUTO") {
            Ok(BacktraceOptions::Auto)
        } else if spells_word(text, "never", "NEVER") {
            Ok(BacktraceOptions::Never)
        } else if spells_word(text, "always", "ALWAYS") {
            Ok(BacktraceOptions::Always)
        } else {
            Err(InvalidBacktraceOption)
        }
    }
}

impl TryFrom<&String> for BacktraceOptions {
    type Error = InvalidBacktraceOption;

    /// Reads an option from its name, as `parse` does.
    fn try_from(item: &String) -> (r: Result<BacktraceOptions, InvalidBacktraceOption>) {
        BacktraceOptions::parse(item.as_str())
    }
}

impl vstd::std_specs::convert::TryFromSpecImpl<&String> for BacktraceOptions {
    open spec fn obeys_try_from_spec() -> bool {
        true
    }

    open spec fn try_from_spec(item: &String) -> Result<BacktraceOptions, InvalidBacktraceOption> {
        match option_named(item@) {
            Some(option) => Ok(option),
            None => Err(InvalidBacktraceOption),
        }
    }
}

impl Default for BacktraceOptions {
    fn default() -> (option: BacktraceOptions)
        ensures
            option == BacktraceOptions::Auto,
    {
        BacktraceOptions::Auto
    }
}

impl InvalidBacktraceOption {
    /// What to tell the user.
    pub fn message(&self) -> (text: String)
        ensures
            text@ == "options for `--backtrace` are `auto`, `never`, `always`."@,
    {
        "options for `--backtrace` are `auto`, `never`, `always`.".to_owned()
    }
}

impl Settings {
    /// The settings of a user who asked for nothing: the backtrace is shown
    /// where the run calls for it, up to `DEFAULT_BACKTRACE_LIMIT` frames,
    /// with the source paths as the program image has them.
    pub fn new(current_dir: String) -> (settings: Settings)
        ensures
            settings.current_dir@ == current_dir@,
            settings.backtrace == BacktraceOptions::Auto,
            settings.backtrace_limit == DEFAULT_BACKTRACE_LIMIT,
            !settings.shorten_paths,
    {
        Settings {
            current_dir,
            backtrace: BacktraceOptions::Auto,
            backtrace_limit: DEFAULT_BACKTRACE_LIMIT,
            shorten_paths: false,
        }
    }

    /// The directory that source paths are to be shown relative to, if any.
    pub open spec fn base_directory(&self) -> Option<Seq<char>> {
        if self.shorten_paths {
            Some(self.current_dir@)
        } else {
            None
        }
    }
}

} // verus!
