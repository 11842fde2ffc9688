use target_backtrace::image::{
    CfaBase, CodeRange, ImageError, InlineRange, InlinedCall, LineEntry, ProgramImage, SaveRule,
    Symbol, UnwindRow,
};

fn symbol(start: u32, end: u32, name: &str) -> Symbol {
    Symbol { start, end, name: name.to_string() }
}

fn line(address: u32, file: &str, line: u32) -> LineEntry {
    LineEntry { address, file: file.to_string(), line, column: None }
}

fn row(start: u32, end: u32) -> UnwindRow {
    UnwindRow {
        start,
        end,
        cfa_base: CfaBase::StackPointer,
        cfa_offset: 8,
        return_address: SaveRule::BelowCfa(4),
        frame_pointer: SaveRule::Unchanged,
    }
}

fn inline(start: u32, end: u32) -> InlineRange {
    InlineRange {
        start,
        end,
        calls: vec![InlinedCall {
            function: "inlined".to_string(),
            call_file: "src/lib.rs".to_string(),
            call_line: 3,
            call_column: Some(9),
        }],
    }
}

fn sample() -> ProgramImage {
    ProgramImage::new(
        vec![symbol(0x100, 0x140, "reset"), symbol(0x140, 0x200, "main"), symbol(0x300, 0x310, "idle")],
        vec![line(0x100, "src/reset.rs", 5), line(0x140, "src/main.rs", 10), line(0x150, "src/main.rs", 12)],
        vec![inline(0x148, 0x150)],
        vec![row(0x100, 0x140), row(0x140, 0x200)],
        vec![CodeRange { start: 0x100, end: 0x200 }, CodeRange { start: 0x300, end: 0x310 }],
        0x100,
    )
    .unwrap()
}

#[test]
fn symbol_is_found_by_containment() {
    let image = sample();
    assert_eq!(image.symbol_at(0x100).unwrap().name, "reset");
    assert_eq!(image.symbol_at(0x13F).unwrap().name, "reset");
    assert_eq!(image.symbol_at(0x140).unwrap().name, "main");
    assert_eq!(image.symbol_at(0x1FF).unwrap().name, "main");
    assert_eq!(image.symbol_at(0x30F).unwrap().name, "idle");
}

#[test]
fn address_between_symbols_has_none() {
    let image = sample();
    assert_eq!(image.symbol_at(0xFF), None);
    assert_eq!(image.symbol_at(0), None);
    assert_eq!(image.symbol_at(0x200), None);
    assert_eq!(image.symbol_at(0x2FF), None);
    assert_eq!(image.symbol_at(0x310), None);
    assert_eq!(image.symbol_at(0xFFFF_FFFF), None);
}

#[test]
fn line_is_the_nearest_row_at_or_below() {
    let image = sample();
    assert_eq!(image.line_at(0x100).unwrap().line, 5);
    assert_eq!(image.line_at(0x13F).unwrap().line, 5);
    assert_eq!(image.line_at(0x140).unwrap().line, 10);
    assert_eq!(image.line_at(0x14F).unwrap().line, 10);
    assert_eq!(image.line_at(0x150).unwrap().line, 12);
    assert_eq!(image.line_at(0xFFFF_FFFF).unwrap().line, 12);
    assert_eq!(image.line_at(0xFF), None);
}

#[test]
fn rows_that_begin_at_one_address_yield_the_last() {
    let image = ProgramImage::new(
        vec![],
        vec![line(0x100, "a.rs", 1), line(0x100, "b.rs", 2), line(0x100, "c.rs", 3)],
        vec![],
        vec![],
        vec![],
        0,
    )
    .unwrap();
    assert_eq!(image.line_at(0x100).unwrap().file, "c.rs");
    assert_eq!(image.line_at(0x101).unwrap().file, "c.rs");
}

#[test]
fn inlined_calls_and_unwind_rows_are_found_by_containment() {
    let image = sample();
    assert_eq!(image.inlined_at(0x147), None);
    assert_eq!(image.inlined_at(0x148).unwrap().calls.len(), 1);
    assert_eq!(image.inlined_at(0x14F).unwrap().start, 0x148);
    assert_eq!(image.inlined_at(0x150), None);
    assert_eq!(image.unwind_row_at(0xFF), None);
    assert_eq!(image.unwind_row_at(0x100), Some(row(0x100, 0x140)));
    assert_eq!(image.unwind_row_at(0x1FF), Some(row(0x140, 0x200)));
    assert_eq!(image.unwind_row_at(0x200), None);
}

#[test]
fn code_is_what_the_ranges_hold() {
    let image = sample();
    assert!(image.holds_code(0x100));
    assert!(image.holds_code(0x1FF));
    assert!(!image.holds_code(0x200));
    assert!(!image.holds_code(0xFF));
    assert!(image.holds_code(0x300));
    assert!(!image.holds_code(0x310));
    assert_eq!(image.entry_point(), 0x100);
}

#[test]
fn empty_image_finds_nothing() {
    let image = ProgramImage::new(vec![], vec![], vec![], vec![], vec![], 0).unwrap();
    assert_eq!(image.symbol_at(0), None);
    assert_eq!(image.line_at(0), None);
    assert_eq!(image.inlined_at(0), None);
    assert_eq!(image.unwind_row_at(0), None);
    assert!(!image.holds_code(0));
}

#[test]
fn lookup_in_a_large_table() {
    let symbols: Vec<Symbol> =
        (0..1000u32).map(|i| symbol(0x1000 + 16 * i, 0x1000 + 16 * i + 12, &format!("f{}", i))).collect();
    let image = ProgramImage::new(symbols, vec![], vec![], vec![], vec![], 0).unwrap();
    for i in 0..1000u32 {
        assert_eq!(image.symbol_at(0x1000 + 16 * i).unwrap().name, format!("f{}", i));
        assert_eq!(image.symbol_at(0x1000 + 16 * i + 11).unwrap().name, format!("f{}", i));
        assert_eq!(image.symbol_at(0x1000 + 16 * i + 12), None);
    }
    assert_eq!(image.symbol_at(0xFFF), None);
}

#[test]
fn unordered_symbols_are_refused() {
    let result = ProgramImage::new(
        vec![symbol(0x200, 0x210, "b"), symbol(0x100, 0x110, "a")],
        vec![line(2, "x", 1), line(1, "x", 1)],
        vec![],
        vec![],
        vec![],
        0,
    );
    assert_eq!(result.err(), Some(ImageError::UnorderedSymbols));
}

#[test]
fn unordered_lines_are_refused() {
    let result = ProgramImage::new(
        vec![symbol(0x100, 0x110, "a"), symbol(0x100, 0x120, "b")],
        vec![line(1, "x", 1), line(2, "x", 1), line(1, "x", 1)],
        vec![inline(2, 3), inline(1, 2)],
        vec![],
        vec![],
        0,
    );
    assert_eq!(result.err(), Some(ImageError::UnorderedLines));
}

#[test]
fn unordered_inline_ranges_are_refused() {
    let result = ProgramImage::new(
        vec![],
        vec![],
        vec![inline(2, 3), inline(1, 2)],
        vec![row(2, 3), row(1, 2)],
        vec![],
        0,
    );
    assert_eq!(result.err(), Some(ImageError::UnorderedInlineRanges));
}

#[test]
fn unordered_unwind_rows_are_refused() {
    let result = ProgramImage::new(
        vec![],
        vec![],
        vec![],
        vec![row(1, 2), row(3, 4), row(2, 3)],
        vec![CodeRange { start: 5, end: 1 }],
        0,
    );
    assert_eq!(result.err(), Some(ImageError::UnorderedUnwindRows));
}
