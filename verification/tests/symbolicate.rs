use target_backtrace::frame::RawFrame;
use target_backtrace::image::{InlineRange, InlinedCall, LineEntry, ProgramImage, Symbol};
use target_backtrace::symbolicate::{frames, shorten, SymbolicatedFrame};
use target_backtrace::{BacktraceOptions, Settings};

fn raw(program_counter: u32, is_exception_frame: bool) -> RawFrame {
    RawFrame {
        program_counter,
        stack_pointer: 0x2000_1000,
        link_register: 0,
        frame_pointer: 0,
        is_exception_frame,
    }
}

fn settings(shorten_paths: bool) -> Settings {
    Settings {
        current_dir: "/home/user/app".to_string(),
        backtrace: BacktraceOptions::Auto,
        backtrace_limit: 50,
        shorten_paths,
    }
}

fn image() -> ProgramImage {
    ProgramImage::new(
        vec![
            Symbol { start: 0x100, end: 0x140, name: "HardFault".to_string() },
            Symbol { start: 0x140, end: 0x200, name: "app::main".to_string() },
            Symbol { start: 0x200, end: 0x280, name: "Reset".to_string() },
        ],
        vec![
            LineEntry {
                address: 0x100,
                file: "/home/user/app/src/fault.rs".to_string(),
                line: 7,
                column: None,
            },
            LineEntry {
                address: 0x140,
                file: "/home/user/app/src/main.rs".to_string(),
                line: 12,
                column: Some(5),
            },
            LineEntry {
                address: 0x160,
                file: "/home/user/.cargo/registry/cortex-m/src/asm.rs".to_string(),
                line: 30,
                column: Some(9),
            },
            LineEntry { address: 0x200, file: "src/lib.rs".to_string(), line: 99, column: None },
        ],
        vec![InlineRange {
            start: 0x160,
            end: 0x170,
            calls: vec![
                InlinedCall {
                    function: "cortex_m::asm::udf".to_string(),
                    call_file: "/home/user/app/src/util.rs".to_string(),
                    call_line: 4,
                    call_column: Some(13),
                },
                InlinedCall {
                    function: "app::util::fail".to_string(),
                    call_file: "/home/user/app/src/main.rs".to_string(),
                    call_line: 20,
                    call_column: None,
                },
            ],
        }],
        vec![],
        vec![],
        0x200,
    )
    .unwrap()
}

#[test]
fn frame_is_resolved_to_function_and_position() {
    let resolved = frames(&vec![raw(0x150, false)], &settings(false), &image());
    assert_eq!(
        resolved,
        vec![SymbolicatedFrame {
            index: 0,
            function_name: "app::main".to_string(),
            file_path: "/home/user/app/src/main.rs".to_string(),
            line: 12,
            column: Some(5),
            is_inline: false,
            is_exception: false,
        }]
    );
}

#[test]
fn inlined_calls_are_expanded_innermost_first() {
    let resolved = frames(&vec![raw(0x164, false)], &settings(false), &image());
    assert_eq!(
        resolved,
        vec![
            SymbolicatedFrame {
                index: 0,
                function_name: "cortex_m::asm::udf".to_string(),
                file_path: "/home/user/.cargo/registry/cortex-m/src/asm.rs".to_string(),
                line: 30,
                column: Some(9),
                is_inline: true,
                is_exception: false,
            },
            SymbolicatedFrame {
                index: 1,
                function_name: "app::util::fail".to_string(),
                file_path: "/home/user/app/src/util.rs".to_string(),
                line: 4,
                column: Some(13),
                is_inline: true,
                is_exception: false,
            },
            SymbolicatedFrame {
                index: 2,
                function_name: "app::main".to_string(),
                file_path: "/home/user/app/src/main.rs".to_string(),
                line: 20,
                column: None,
                is_inline: false,
                is_exception: false,
            },
        ]
    );
}

#[test]
fn unknown_address_gets_a_placeholder_and_the_rest_goes_on() {
    let resolved =
        frames(&vec![raw(0x50, false), raw(0x300, false), raw(0x210, false)], &settings(true), &image());
    assert_eq!(resolved.len(), 3);
    assert_eq!(
        resolved[0],
        SymbolicatedFrame {
            index: 0,
            function_name: "<unknown>".to_string(),
            file_path: "<unknown>".to_string(),
            line: 0,
            column: None,
            is_inline: false,
            is_exception: false,
        }
    );
    assert_eq!(resolved[1].function_name, "<unknown>");
    assert_eq!(resolved[1].file_path, "src/lib.rs");
    assert_eq!(resolved[1].line, 99);
    assert_eq!(resolved[2].function_name, "Reset");
    assert_eq!(resolved[2].index, 2);
}

#[test]
fn order_of_the_raw_frames_is_kept() {
    let raw_frames = vec![raw(0x110, true), raw(0x164, false), raw(0x150, false), raw(0x210, false)];
    let resolved = frames(&raw_frames, &settings(true), &image());
    let names: Vec<&str> = resolved.iter().map(|frame| frame.function_name.as_str()).collect();
    assert_eq!(
        names,
        vec!["HardFault", "cortex_m::asm::udf", "app::util::fail", "app::main", "app::main", "Reset"]
    );
    for (position, frame) in resolved.iter().enumerate() {
        assert_eq!(frame.index, position);
    }
    let inline: Vec<bool> = resolved.iter().map(|frame| frame.is_inline).collect();
    assert_eq!(inline, vec![false, true, true, false, false, false]);
    let exception: Vec<bool> = resolved.iter().map(|frame| frame.is_exception).collect();
    assert_eq!(exception, vec![true, false, false, false, false, false]);
}

#[test]
fn exception_mark_goes_to_every_frame_of_the_expansion() {
    let resolved = frames(&vec![raw(0x164, true)], &settings(false), &image());
    assert_eq!(resolved.len(), 3);
    assert!(resolved.iter().all(|frame| frame.is_exception));
}

#[test]
fn symbolication_of_the_same_frames_is_the_same() {
    let raw_frames = vec![raw(0x110, true), raw(0x164, false), raw(0x50, false)];
    let image = image();
    assert_eq!(
        frames(&raw_frames, &settings(true), &image),
        frames(&raw_frames, &settings(true), &image)
    );
}

#[test]
fn no_raw_frames_give_no_frames() {
    assert_eq!(frames(&vec![], &settings(true), &image()), vec![]);
}

#[test]
fn paths_below_the_working_directory_are_shortened() {
    let resolved = frames(&vec![raw(0x164, false), raw(0x110, false)], &settings(true), &image());
    let paths: Vec<&str> = resolved.iter().map(|frame| frame.file_path.as_str()).collect();
    assert_eq!(
        paths,
        vec![
            "/home/user/.cargo/registry/cortex-m/src/asm.rs",
            "src/util.rs",
            "src/main.rs",
            "src/fault.rs"
        ]
    );
}

#[test]
fn shorten_strips_the_directory_and_one_separator() {
    assert_eq!(shorten("/home/user/app/src/main.rs", "/home/user/app"), "src/main.rs");
    assert_eq!(shorten("/home/user/app/src/main.rs", "/home/user/app/"), "src/main.rs");
    assert_eq!(shorten("/home/user/app/src/main.rs", "/"), "home/user/app/src/main.rs");
    assert_eq!(shorten("/a/b", "/a"), "b");
    assert_eq!(shorten("/a//b", "/a"), "/b");
}

#[test]
fn shorten_leaves_other_paths_unchanged() {
    assert_eq!(shorten("/home/user/application/main.rs", "/home/user/app"), "/home/user/application/main.rs");
    assert_eq!(shorten("/home/other/src/main.rs", "/home/user/app"), "/home/other/src/main.rs");
    assert_eq!(shorten("src/main.rs", "src"), "src/main.rs");
    assert_eq!(shorten("src/main.rs", "/home/user/app"), "src/main.rs");
    assert_eq!(shorten("/home/user/app", "/home/user/app"), "/home/user/app");
    assert_eq!(shorten("/home/user/app/", "/home/user/app"), "/home/user/app/");
    assert_eq!(shorten("/home/user/app/x", ""), "/home/user/app/x");
    assert_eq!(shorten("/a", "/a/b/c"), "/a");
    assert_eq!(shorten("", "/a"), "");
    assert_eq!(shorten("<unknown>", "/"), "<unknown>");
}

#[test]
fn shorten_counts_characters_not_bytes() {
    assert_eq!(shorten("/h\u{f6}me/\u{fc}ser/src/m\u{e4}in.rs", "/h\u{f6}me/\u{fc}ser"), "src/m\u{e4}in.rs");
    assert_eq!(shorten("/h\u{f6}me/user/x", "/home/user"), "/h\u{f6}me/user/x");
}
