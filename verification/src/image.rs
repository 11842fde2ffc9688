//! The program image: the debug metadata of the program that runs on the
//! target, held as plain tables that are ordered by address.

use vstd::prelude::*;

verus! {

/// An entry of a table that is ordered by address.
pub trait Addressed {
    /// The address at which the entry begins.
    spec fn base(&self) -> u32;

    /// Whether the entry speaks for the address.
    spec fn covers(&self, address: u32) -> bool;

    /// The address at which the entry begins.
    fn base_address(&self) -> (a: u32)
        ensures
            a == self.base(),
    ;

    /// Whether the entry speaks for the address.
    fn covers_address(&self, address: u32) -> (r: bool)
        ensures
            r == self.covers(address),
    ;
}

/// A function of the program: the addresses `start..end` and its name.
#[derive(Clone, Debug, PartialEq, Eq)]
pub struct Symbol {
    pub start: u32,
    pub end: u32,
    pub name: String,
}

/// A row of the line-number table: the source position of the instruction at
/// `address` and of those behind it, up to the next row.
#[derive(Clone, Debug, PartialEq, Eq)]
pub struct LineEntry {
    pub address: u32,
    pub file: String,
    pub line: u32,
    pub column: Option<u32>,
}

/// A function that was inlined, and the source position of the call that was
/// replaced by its body.
#[derive(Clone, Debug, PartialEq, Eq)]
pub struct InlinedCall {
    pub function: String,
    pub call_file: String,
    pub call_line: u32,
    pub call_column: Option<u32>,
}

/// The inlined calls that the addresses `start..end` lie in, innermost first.
#[derive(Clone, Debug, PartialEq, Eq)]
pub struct InlineRange {
    pub start: u32,
    pub end: u32,
    pub calls: Vec<InlinedCall>,
}

/// The register that the canonical frame address is computed from.
#[derive(Clone, Copy, Debug, PartialEq, Eq, Structural)]
pub enum CfaBase {
    StackPointer,
    FramePointer,
}

/// Where a frame keeps the value that a register had in its caller.
#[derive(Clone, Copy, Debug, PartialEq, Eq, Structural)]
pub enum SaveRule {
    /// The register still holds it.
    Unchanged,
    /// It is the word stored this many bytes below the canonical frame
    /// address.
    BelowCfa(u32),
}

/// A row of call-frame information: how to recover the caller's registers
/// while the program counter is in `start..end`.
#[derive(Clone, Copy, Debug, PartialEq, Eq, Structural)]
pub struct UnwindRow {
    pub start: u32,
    pub end: u32,
    /// The canonical frame address is the value of this register ...
    pub cfa_base: CfaBase,
    /// ... plus this many bytes. It is the caller's stack pointer.
    pub cfa_offset: u32,
    pub return_address: SaveRule,
    pub frame_pointer: SaveRule,
}

/// Addresses `start..end` that hold code.
#[derive(Clone, Copy, Debug, PartialEq, Eq, Structural)]
pub struct CodeRange {
    pub start: u32,
    pub end: u32,
}

/// The table of a program image that is not ordered by address.
#[derive(Clone, Copy, Debug, PartialEq, Eq, Structural)]
pub enum ImageError {
    UnorderedSymbols,
    UnorderedLines,
    UnorderedInlineRanges,
    UnorderedUnwindRows,
}

impl Addressed for Symbol {
    open spec fn base(&self) -> u32 {
        self.start
    }

    open spec fn covers(&self, address: u32) -> bool {
        self.start <= address < self.end
    }

    fn base_address(&self) -> (a: u32) {
        self.start
    }

    fn covers_address(&self, address: u32) -> (r: bool) {
        self.start <= address && address < self.end
    }
}

impl Addressed for LineEntry {
    open spec fn base(&self) -> u32 {
        self.address
    }

    open spec fn covers(&self, address: u32) -> bool {
        self.address <= address
    }

    fn base_address(&self) -> (a: u32) {
        self.address
    }

    fn covers_address(&self, address: u32) -> (r: bool) {
        self.address <= address
    }
}

impl Addressed for InlineRange {
    open spec fn base(&self) -> u32 {
        self.start
    }

    open spec fn covers(&self, address: u32) -> bool {
        self.start <= address < self.end
    }

    fn base_address(&self) -> (a: u32) {
        self.start
    }

    fn covers_address(&self, address: u32) -> (r: bool) {
        self.start <= address && address < self.end
    }
}

impl Addressed for UnwindRow {
    open spec fn base(&self) -> u32 {
        self.start
    }

    open spec fn covers(&self, address: u32) -> bool {
        self.start <= address < self.end
    }

    fn base_address(&self) -> (a: u32) {
        self.start
    }

    fn covers_address(&self, address: u32) -> (r: bool) {
        self.start <= address && address < self.end
    }
}

/// Whether the entries begin at ascending addresses. Entries may begin at the
/// same address.
pub open spec fn ordered<T: Addressed>(table: Seq<T>) -> bool {
    forall|i: int, j: int| 0 <= i <= j < table.len() ==> table[i].base() <= table[j].base()
}

/// The index of the last entry that begins at or below the address.
pub open spec fn nearest<T: Addressed>(table: Seq<T>, address: u32) -> Option<int>
    decreases table.len(),
{
    if table.len() == 0 {
        None
    } else if table.last().base() <= address {
        Some(table.len() - 1)
    } else {
        nearest(table.drop_last(), address)
    }
}

/// The index of the entry that speaks for the address: the nearest entry at
/// or below it, if that one covers it.
pub open spec fn covering<T: Addressed>(table: Seq<T>, address: u32) -> Option<int> {
    match nearest(table, address) {
        Some(i) => if table[i].covers(address) {
            Some(i)
        } else {
            None
        },
        None => None,
    }
}

/// Whether one of the ranges holds the address.
pub open spec fn in_code(ranges: Seq<CodeRange>, address: u32) -> bool {
    exists|i: int| 0 <= i < ranges.len() && (#[trigger] ranges[i]).start <= address < ranges[i].end
}

/// The nearest entry is the one that splits the table into the entries at or
/// below the address and those above it.
pub proof fn lemma_nearest_splits<T: Addressed>(table: Seq<T>, address: u32, above: int)
    requires
        0 <= above <= table.len(),
        forall|j: int| above <= j < table.len() ==> (#[trigger] table[j]).base() > address,
        above > 0 ==> table[above - 1].base() <= address,
    ensures
        nearest(table, address) == if above == 0 {
            None
        } else {
            Some(above - 1)
        },
    decreases table.len(),
{
    if table.len() > 0 && above < table.len() {
        assert(table[table.len() - 1].base() > address);
        lemma_nearest_splits(table.drop_last(), address, above);
    }
}

/// What `nearest` finds: an entry at or below the address with none behind it
/// that is, or nothing where every entry begins above the address.
pub proof fn lemma_nearest_is_last_at_or_below<T: Addressed>(table: Seq<T>, address: u32)
    ensures
        match nearest(table, address) {
            Some(i) => 0 <= i < table.len() && table[i].base() <= address && forall|j: int|
                i < j < table.len() ==> (#[trigger] table[j]).base() > address,
            None => forall|j: int| 0 <= j < table.len() ==> (#[trigger] table[j]).base() > address,
        },
    decreases table.len(),
{
    if table.len() > 0 && table.last().base() > address {
        lemma_nearest_is_last_at_or_below(table.drop_last(), address);
        match nearest(table.drop_last(), address) {
            Some(i) => {
                assert forall|j: int| i < j < table.len() implies (#[trigger] table[j]).base()
                    > address by {
                    if j < table.len() - 1 {
                        assert(table.drop_last()[j].base() > address);
                    }
                }
            },
            None => {
                assert forall|j: int| 0 <= j < table.len() implies (#[trigger] table[j]).base()
                    > address by {
                    if j < table.len() - 1 {
                        assert(table.drop_last()[j].base() > address);
                    }
                }
            },
        }
    }
}

/// Checks that the entries begin at ascending addresses.
fn is_ordered<T: Addressed>(table: &Vec<T>) -> (r: bool)
    ensures
        r == ordered(table@),
{
    let mut i: usize = 1;
    while i < table.len()
        invariant
            1 <= i,
            forall|a: int, b: int|
                0 <= a <= b < i && b < table.len() ==> table@[a].base() <= table@[b].base(),
        decreases table.len() - i,
    {
        if table[i - 1].base_address() > table[i].base_address() {
            return false;
        }
        i += 1;
    }
    true
}

/// Finds the last entry that begins at or below the address, by bisection.
fn find_nearest<T: Addressed>(table: &Vec<T>, address: u32) -> (r: Option<usize>)
    requires
        ordered(table@),
    ensures
        match r {
            Some(i) => nearest(table@, address) == Some(i as int),
            None => nearest(table@, address) is None,
        },
{
    let mut low: usize = 0;
    let mut high: usize = table.len();
    while low < high
        invariant
            low <= high <= table.len(),
            ordered(table@),
            forall|j: int| 0 <= j < low ==> (#[trigger] table@[j]).base() <= address,
            forall|j: int| high <= j < table.len() ==> (#[trigger] table@[j]).base() > address,
        decreases high - low,
    {
        let middle = low + (high - low) / 2;
        if table[middle].base_address() <= address {
            low = middle + 1;
        } else {
            high = middle;
        }
    }
    proof {
        lemma_nearest_splits(table@, address, low as int);
    }
    if low == 0 {
        None
    } else {
        Some(low - 1)
    }
}

/// Finds the entry that speaks for the address.
fn find_covering<T: Addressed>(table: &Vec<T>, address: u32) -> (r: Option<usize>)
    requires
        ordered(table@),
    ensures
        match r {
            Some(i) => covering(table@, address) == Some(i as int) && i < table.len(),
            None => covering(table@, address) is None,
        },
{
    proof {
        lemma_nearest_is_last_at_or_below(table@, address);
    }
    match find_nearest(table, address) {
        Some(i) => if table[i].covers_address(address) {
            Some(i)
        } else {
            None
        },
        None => None,
    }
}

/// The debug metadata of a program. Its tables are ordered by address, which
/// `new` checks, so that every lookup is a bisection.
pub struct ProgramImage {
    symbols: Vec<Symbol>,
    lines: Vec<LineEntry>,
    inlines: Vec<InlineRange>,
    unwind_rows: Vec<UnwindRow>,
    code: Vec<CodeRange>,
    entry_point: u32,
}

impl ProgramImage {
    #[verifier::type_invariant]
    spec fn tables_ordered(&self) -> bool {
        &&& ordered(self.symbols@)
        &&& ordered(self.lines@)
        &&& ordered(self.inlines@)
        &&& ordered(self.unwind_rows@)
    }

    /// The symbol table.
    pub closed spec fn symbol_table(&self) -> Seq<Symbol> {
        self.symbols@
    }

    /// The line-number table.
    pub closed spec fn line_table(&self) -> Seq<LineEntry> {
        self.lines@
    }

    /// The table of inlined calls.
    pub closed spec fn inline_table(&self) -> Seq<InlineRange> {
        self.inlines@
    }

    /// The call-frame information.
    pub closed spec fn unwind_table(&self) -> Seq<UnwindRow> {
        self.unwind_rows@
    }

    /// The ranges that hold code.
    pub closed spec fn code_ranges(&self) -> Seq<CodeRange> {
        self.code@
    }

    /// The address at which the program starts.
    pub closed spec fn entry(&self) -> u32 {
        self.entry_point
    }

    /// Whether the address holds code.
    pub open spec fn is_code(&self, address: u32) -> bool {
        in_code(self.code_ranges(), address)
    }

    /// The call-frame information for a program counter, if the image holds
    /// any.
    pub open spec fn unwind_row(&self, address: u32) -> Option<UnwindRow> {
        match covering(self.unwind_table(), address) {
            Some(i) => Some(self.unwind_table()[i]),
            None => None,
        }
    }

    /// Makes an image of the given tables, or names the first table that is
    /// not ordered by address.
    pub fn new(
        symbols: Vec<Symbol>,
        lines: Vec<LineEntry>,
        inlines: Vec<InlineRange>,
        unwind_rows: Vec<UnwindRow>,
        code: Vec<CodeRange>,
        entry_point: u32,
    ) -> (r: Result<ProgramImage, ImageError>)
        ensures
            match r {
                Ok(image) => {
                    &&& ordered(symbols@)
                    &&& ordered(lines@)
                    &&& ordered(inlines@)
                    &&& ordered(unwind_rows@)
                    &&& image.symbol_table() == symbols@
                    &&& image.line_table() == lines@
                    &&& image.inline_table() == inlines@
                    &&& image.unwind_table() == unwind_rows@
                    &&& image.code_ranges() == code@
                    &&& image.entry() == entry_point
                },
                Err(ImageError::UnorderedSymbols) => !ordered(symbols@),
                Err(ImageError::UnorderedLines) => ordered(symbols@) && !ordered(lines@),
                Err(ImageError::UnorderedInlineRanges) => ordered(symbols@) && ordered(lines@)
                    && !ordered(inlines@),
                Err(ImageError::UnorderedUnwindRows) => ordered(symbols@) && ordered(lines@)
                    && ordered(inlines@) && !ordered(unwind_rows@),
            },
    {
        if !is_ordered(&symbols) {
            return Err(ImageError::UnorderedSymbols);
        }
        if !is_ordered(&lines) {
            return Err(ImageError::UnorderedLines);
        }
        if !is_ordered(&inlines) {
            return Err(ImageError::UnorderedInlineRanges);
        }
        if !is_ordered(&unwind_rows) {
            return Err(ImageError::UnorderedUnwindRows);
        }
        Ok(ProgramImage { symbols, lines, inlines, unwind_rows, code, entry_point })
    }

    /// The address at which the program starts.
    pub fn entry_point(&self) -> (address: u32)
        ensures
            address == self.entry(),
    {
        self.entry_point
    }

    /// The function that encloses the address.
    pub fn symbol_at(&self, address: u32) -> (r: Option<&Symbol>)
        ensures
            match r {
                Some(symbol) => covering(self.symbol_table(), address) is Some && *symbol
                    == self.symbol_table()[covering(self.symbol_table(), address).unwrap()],
                None => covering(self.symbol_table(), address) is None,
            },
    {
        proof {
            use_type_invariant(self);
        }
        match find_covering(&self.symbols, address) {
            Some(i) => Some(&self.symbols[i]),
            None => None,
        }
    }

    /// The row of the line-number table that speaks for the address: the last
    /// one at or below it.
    pub fn line_at(&self, address: u32) -> (r: Option<&LineEntry>)
        ensures
            match r {
                Some(entry) => covering(self.line_table(), address) is Some && *entry
                    == self.line_table()[covering(self.line_table(), address).unwrap()],
                None => covering(self.line_table(), address) is None,
            },
    {
        proof {
            use_type_invariant(self);
        }
        match find_covering(&self.lines, address) {
            Some(i) => Some(&self.lines[i]),
            None => None,
        }
    }

    /// The inlined calls that the address lies in, if any.
    pub fn inlined_at(&self, address: u32) -> (r: Option<&InlineRange>)
        ensures
            match r {
                Some(range) => covering(self.inline_table(), address) is Some && *range
                    == self.inline_table()[covering(self.inline_table(), address).unwrap()],
                None => covering(self.inline_table(), address) is None,
            },
    {
        proof {
            use_type_invariant(self);
        }
        match find_covering(&self.inlines, address) {
            Some(i) => Some(&self.inlines[i]),
            None => None,
        }
    }

    /// The call-frame information for a program counter, if the image holds
    /// any.
    pub fn unwind_row_at(&self, address: u32) -> (r: Option<UnwindRow>)
        ensures
            r == self.unwind_row(address),
    {
        proof {
            use_type_invariant(self);
        }
        match find_covering(&self.unwind_rows, address) {
            Some(i) => Some(self.unwind_rows[i]),
            None => None,
        }
    }

    /// Whether the address holds code.
    pub fn holds_code(&self, address: u32) -> (r: bool)
        ensures
            r == self.is_code(address),
    {
        let mut i: usize = 0;
        while i < self.code.len()
            invariant
                i <= self.code.len(),
                forall|j: int|
                    0 <= j < i ==> !((#[trigger] self.code@[j]).start <= address
                        < self.code@[j].end),
            decreases self.code.len() - i,
        {
            if self.code[i].start <= address && address < self.code[i].end {
                return true;
            }
            i += 1;
        }
        false
    }
}

} // verus!
