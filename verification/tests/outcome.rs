use target_backtrace::diagnostic::{Diagnostic, Severity};
use target_backtrace::frame::{FrameStore, ProcessingError, RamBounds, RawFrame};
use target_backtrace::outcome::{classify, to_exit_code, to_log_line};
use target_backtrace::{Outcome, SIGABRT};

const RAM: RamBounds = RamBounds { lower: 0x2000_0000, upper: 0x2000_8000 };

fn frame(stack_pointer: u32, is_exception_frame: bool) -> RawFrame {
    RawFrame {
        program_counter: 0x0800_0100,
        stack_pointer,
        link_register: if is_exception_frame { 0xFFFF_FFF9 } else { 0x0800_0201 },
        frame_pointer: stack_pointer,
        is_exception_frame,
    }
}

fn store(raw_frames: Vec<RawFrame>) -> FrameStore {
    FrameStore { raw_frames, corrupted: false, processing_error: None }
}

#[test]
fn exit_code_of_a_run_without_error_is_zero() {
    assert_eq!(to_exit_code(Outcome::Normal), 0);
    assert_eq!(i32::from(Outcome::Normal), 0);
}

#[test]
fn both_failures_exit_with_the_abort_code() {
    assert_eq!(SIGABRT, 134);
    assert_eq!(to_exit_code(Outcome::HardFault), 134);
    assert_eq!(to_exit_code(Outcome::StackOverflow), 134);
    assert_eq!(i32::from(Outcome::HardFault), SIGABRT);
    assert_eq!(i32::from(Outcome::StackOverflow), SIGABRT);
}

#[test]
fn each_outcome_has_its_log_line() {
    assert_eq!(
        to_log_line(Outcome::StackOverflow),
        Diagnostic {
            severity: Severity::Error,
            message: "the program has overflowed its stack".to_string(),
        }
    );
    assert_eq!(
        to_log_line(Outcome::HardFault),
        Diagnostic { severity: Severity::Error, message: "the program panicked".to_string() }
    );
    assert_eq!(
        to_log_line(Outcome::Normal),
        Diagnostic { severity: Severity::Info, message: "device halted without error".to_string() }
    );
}

#[test]
fn log_adds_exactly_one_line_to_the_sink() {
    let mut sink = vec![Diagnostic { severity: Severity::Warn, message: "earlier".to_string() }];
    Outcome::HardFault.log(&mut sink);
    assert_eq!(sink.len(), 2);
    assert_eq!(sink[0].message, "earlier");
    assert_eq!(sink[1], to_log_line(Outcome::HardFault));
    Outcome::Normal.log(&mut sink);
    assert_eq!(sink.len(), 3);
    assert_eq!(sink[2].severity, Severity::Info);
}

#[test]
fn clean_halt_is_classified_as_normal() {
    let unwind = store(vec![frame(0x2000_7F00, false), frame(0x2000_7F80, false)]);
    assert_eq!(classify(&unwind, &RAM), Outcome::Normal);
}

#[test]
fn exception_frame_is_classified_as_hard_fault() {
    let unwind = store(vec![frame(0x2000_7F00, true), frame(0x2000_7F80, false)]);
    assert_eq!(classify(&unwind, &RAM), Outcome::HardFault);
    let later = store(vec![frame(0x2000_7F00, false), frame(0x2000_7F80, true)]);
    assert_eq!(classify(&later, &RAM), Outcome::HardFault);
}

#[test]
fn stack_pointer_below_the_ram_is_a_stack_overflow() {
    let unwind = store(vec![frame(0x1FFF_FFF8, true)]);
    assert_eq!(classify(&unwind, &RAM), Outcome::StackOverflow);
    assert_eq!(to_exit_code(classify(&unwind, &RAM)), SIGABRT);
}

#[test]
fn stack_pointer_above_the_ram_is_a_stack_overflow() {
    let unwind = store(vec![frame(0x2000_7F00, false), frame(0x2000_8004, false)]);
    assert_eq!(classify(&unwind, &RAM), Outcome::StackOverflow);
}

#[test]
fn stack_pointer_on_either_bound_is_no_overflow() {
    assert_eq!(classify(&store(vec![frame(0x2000_0000, false)]), &RAM), Outcome::Normal);
    assert_eq!(classify(&store(vec![frame(0x2000_8000, false)]), &RAM), Outcome::Normal);
    assert_eq!(classify(&store(vec![frame(0x1FFF_FFFF, false)]), &RAM), Outcome::StackOverflow);
    assert_eq!(classify(&store(vec![frame(0x2000_8001, false)]), &RAM), Outcome::StackOverflow);
}

#[test]
fn only_the_last_stack_pointer_decides_on_overflow() {
    let unwind = store(vec![frame(0x1FFF_FFF0, false), frame(0x2000_0010, false)]);
    assert_eq!(classify(&unwind, &RAM), Outcome::Normal);
}

#[test]
fn no_frames_are_classified_as_normal() {
    let unwind = FrameStore {
        raw_frames: vec![],
        corrupted: false,
        processing_error: Some(ProcessingError::RegisterRead),
    };
    assert_eq!(classify(&unwind, &RAM), Outcome::Normal);
}

#[test]
fn classifying_twice_gives_the_same_outcome() {
    let unwind = store(vec![frame(0x2000_7F00, true), frame(0x2000_9000, false)]);
    assert_eq!(classify(&unwind, &RAM), classify(&unwind, &RAM));
    assert_eq!(classify(&unwind, &RAM), Outcome::StackOverflow);
}

#[test]
fn store_tells_whether_it_holds_an_exception_frame() {
    assert!(!store(vec![]).contains_exception());
    assert!(!store(vec![frame(0x2000_7F00, false)]).contains_exception());
    assert!(store(vec![frame(0x2000_7F00, false), frame(0x2000_7F10, true)]).contains_exception());
}

#[test]
fn bounds_of_a_region_include_its_end() {
    assert_eq!(
        RamBounds::of_region(0x2000_0000, 0x2004_0000),
        Some(RamBounds { lower: 0x2000_0000, upper: 0x2004_0000 })
    );
    assert_eq!(
        RamBounds::of_region(0xFFFF_0000, 0x1_0000_0000),
        Some(RamBounds { lower: 0xFFFF_0000, upper: 0xFFFF_FFFF })
    );
    assert_eq!(
        RamBounds::of_region(0xFFFF_FFFF, 0xFFFF_FFFF),
        Some(RamBounds { lower: 0xFFFF_FFFF, upper: 0xFFFF_FFFF })
    );
    assert_eq!(RamBounds::of_region(0x1_0000_0000, 0x1_0000_1000), None);
    assert!(RamBounds::of_region(0x2000_0000, 0x2004_0000).unwrap().contains(0x2004_0000));
    assert!(!RamBounds::of_region(0x2000_0000, 0x2004_0000).unwrap().contains(0x2004_0001));
}

#[test]
fn unknown_ram_never_tells_of_an_overflow() {
    let everything = RamBounds::unbounded();
    assert!(everything.contains(0));
    assert!(everything.contains(u32::MAX));
    assert_eq!(classify(&store(vec![frame(0, false)]), &everything), Outcome::Normal);
    assert_eq!(classify(&store(vec![frame(u32::MAX, true)]), &everything), Outcome::HardFault);
}
