//! The unwinder: walks the call chain of a halted target from its registers,
//! one frame after the other, until it reaches the entry point, an
//! inconsistency, a failed read or the limit on the frame count.
//!
//! The walk never touches the target itself. `Unwinder` asks for one read at a
//! time and is handed the result, so whoever holds the target runs the loop;
//! `unwind` runs it on a captured `Snapshot`.

use vstd::prelude::*;
use crate::frame::{
    frame_of, registers_of, FrameStore, ProcessingError, RamBounds, RawFrame, Registers, Trace,
};
use crate::image::{CfaBase, ProgramImage, SaveRule, UnwindRow};
use crate::memory::{MemoryImage, Snapshot};

verus! {

/// The most frames that a walk records. A walk that would go on is cut here:
/// a chain of frame pointers that runs in a circle has no other end.
pub const MAX_FRAMES: usize = 256;

/// Size of the record that a function keeps at its frame pointer: the
/// caller's frame pointer, and above it the return address.
pub const FRAME_RECORD_SIZE: u32 = 8;

/// Offset of the return address in the record at the frame pointer.
pub const RETURN_ADDRESS_OFFSET: u32 = 4;

/// Where the value that a register had in the caller is found.
#[derive(Clone, Copy, Debug, PartialEq, Eq, Structural)]
pub enum Source {
    /// It is at hand.
    Held(u32),
    /// It is the word stored at this address.
    Stored(u32),
}

/// How to recover the caller of a frame.
#[derive(Clone, Copy, Debug, PartialEq, Eq, Structural)]
pub struct Plan {
    pub caller_stack_pointer: u32,
    pub return_address: Source,
    pub frame_pointer: Source,
}

/// What the recovered registers of a caller amount to.
#[derive(Clone, Copy, Debug, PartialEq, Eq, Structural)]
pub enum Verdict {
    /// A frame to go on with.
    Caller(Registers),
    /// The program's entry point: the walk is complete.
    Entry,
    /// A program counter outside the code or a stack pointer outside the RAM.
    Invalid,
}

/// What a frame's caller is, with the target's memory at hand.
#[derive(Clone, Copy, Debug, PartialEq, Eq, Structural)]
pub enum Resolved {
    /// A frame to go on with.
    Caller(Registers),
    /// The program's entry point: the walk is complete.
    Entry,
    /// An address that cannot be formed or that lies outside every valid
    /// range.
    Invalid,
    /// The word at this address was needed and could not be read.
    Unreadable(u32),
}

/// What the unwinder waits for.
#[derive(Clone, Copy, Debug, PartialEq, Eq, Structural)]
pub enum Stage {
    /// The registers of the halted core.
    Registers,
    /// The word that holds the return address of the last frame.
    ReturnAddress { caller_stack_pointer: u32, address: u32, frame_pointer: Source },
    /// The word that holds the caller's frame pointer.
    FramePointer { caller_stack_pointer: u32, return_address: u32, address: u32 },
    /// Nothing: the walk has ended.
    Finished,
}

/// What the unwinder knows of the caller of the last frame.
#[allow(inconsistent_fields)]
#[derive(Clone, Copy, Debug, PartialEq, Eq, Structural)]
pub enum Progress {
    /// All of its registers: it is the next frame.
    Begin(Registers),
    /// Its stack pointer and the return address into it.
    ReturnAddressKnown { caller_stack_pointer: u32, return_address: u32, frame_pointer: Source },
    /// Its stack pointer, the return address into it and its frame pointer.
    CallerKnown { caller_stack_pointer: u32, return_address: u32, frame_pointer: u32 },
}

/// The read that the unwinder asks for.
#[derive(Clone, Copy, Debug, PartialEq, Eq, Structural)]
pub enum Request {
    /// Read the registers of the halted core.
    Registers,
    /// Read the 32-bit word at `address`.
    Word { address: u32 },
    /// Nothing: the walk has ended.
    Nothing,
}

/// The result of the read that was asked for.
#[derive(Clone, Copy, Debug, PartialEq, Eq, Structural)]
pub enum Reply {
    Registers(Registers),
    Word(u32),
    /// The read failed.
    Failed,
}

/// A walk in progress: what it has gathered and what it waits for.
pub struct Walk {
    pub trace: Trace,
    pub stage: Stage,
}

/// An address without the bit that marks Thumb code in a return address.
pub open spec fn without_thumb_bit(address: u32) -> u32 {
    (address - address % 2) as u32
}

/// Where a rule of the call-frame information finds a register of the
/// caller, or `None` where the rule points below address zero.
pub open spec fn source_of(rule: SaveRule, held: u32, cfa: u32) -> Option<Source> {
    match rule {
        SaveRule::Unchanged => Some(Source::Held(held)),
        SaveRule::BelowCfa(distance) => if distance <= cfa {
            Some(Source::Stored((cfa - distance) as u32))
        } else {
            None
        },
    }
}

/// How to recover the caller of the frame with these registers: by the row of
/// call-frame information for its program counter or, without one, from the
/// record at the frame pointer. `None` where an address of the plan does not
/// fit in 32 bits.
pub open spec fn plan_of(row: Option<UnwindRow>, registers: Registers) -> Option<Plan> {
    match row {
        Some(row) => {
            let base = match row.cfa_base {
                CfaBase::StackPointer => registers.stack_pointer,
                CfaBase::FramePointer => registers.frame_pointer,
            };
            if base + row.cfa_offset > u32::MAX {
                None
            } else {
                let cfa = (base + row.cfa_offset) as u32;
                match (
                    source_of(row.return_address, registers.link_register, cfa),
                    source_of(row.frame_pointer, registers.frame_pointer, cfa),
                ) {
                    (Some(return_address), Some(frame_pointer)) => Some(
                        Plan { caller_stack_pointer: cfa, return_address, frame_pointer },
                    ),
                    _ => None,
                }
            }
        },
        None => if registers.frame_pointer + FRAME_RECORD_SIZE > u32::MAX {
            None
        } else {
            Some(
                Plan {
                    caller_stack_pointer: (registers.frame_pointer + FRAME_RECORD_SIZE) as u32,
                    return_address: Source::Stored(
                        (registers.frame_pointer + RETURN_ADDRESS_OFFSET) as u32,
                    ),
                    frame_pointer: Source::Stored(registers.frame_pointer),
                },
            )
        },
    }
}

/// What the recovered registers of a caller amount to: the entry point, a
/// frame whose program counter is code and whose stack pointer is in the RAM,
/// or neither.
pub open spec fn conclusion(
    image: &ProgramImage,
    ram: RamBounds,
    caller_stack_pointer: u32,
    return_address: u32,
    frame_pointer: u32,
) -> Verdict {
    let program_counter = without_thumb_bit(return_address);
    if program_counter == image.entry() {
        Verdict::Entry
    } else if !image.is_code(program_counter) || !ram.holds(caller_stack_pointer) {
        Verdict::Invalid
    } else {
        Verdict::Caller(
            Registers {
                program_counter,
                stack_pointer: caller_stack_pointer,
                link_register: return_address,
                frame_pointer,
            },
        )
    }
}

/// The value that a source yields, or the address that could not be read.
pub open spec fn fetched(memory: &MemoryImage, source: Source) -> Result<u32, u32> {
    match source {
        Source::Held(value) => Ok(value),
        Source::Stored(address) => match memory.word_at(address) {
            Some(value) => Ok(value),
            None => Err(address),
        },
    }
}

/// The caller of the frame with these registers. The return address is read
/// before the frame pointer.
pub open spec fn resolve(
    image: &ProgramImage,
    ram: RamBounds,
    memory: &MemoryImage,
    registers: Registers,
) -> Resolved {
    match plan_of(image.unwind_row(registers.program_counter), registers) {
        None => Resolved::Invalid,
        Some(plan) => match fetched(memory, plan.return_address) {
            Err(address) => Resolved::Unreadable(address),
            Ok(return_address) => match fetched(memory, plan.frame_pointer) {
                Err(address) => Resolved::Unreadable(address),
                Ok(frame_pointer) => match conclusion(
                    image,
                    ram,
                    plan.caller_stack_pointer,
                    return_address,
                    frame_pointer,
                ) {
                    Verdict::Entry => Resolved::Entry,
                    Verdict::Invalid => Resolved::Invalid,
                    Verdict::Caller(caller) => Resolved::Caller(caller),
                },
            },
        },
    }
}

/// A trace that ends at an inconsistency.
pub open spec fn corrupt(trace: Trace) -> Trace {
    Trace { corrupted: true, ..trace }
}

/// A trace that ends at a failed read.
pub open spec fn failed(trace: Trace, error: ProcessingError) -> Trace {
    Trace { processing_error: Some(error), ..trace }
}

/// A trace with one more frame.
pub open spec fn recorded(trace: Trace, registers: Registers) -> Trace {
    Trace { frames: trace.frames.push(frame_of(registers)), ..trace }
}

/// The trace of a walk that has gathered nothing yet.
pub open spec fn empty_trace() -> Trace {
    Trace { frames: Seq::empty(), corrupted: false, processing_error: None }
}

/// How many frames a walk may still record.
pub open spec fn remaining(recorded: nat) -> nat {
    if recorded >= MAX_FRAMES {
        0
    } else {
        (MAX_FRAMES - recorded) as nat
    }
}

/// The walk from the frame with the given registers on, with the target's
/// memory at hand: what is gathered by the time it ends.
///
/// Each frame is recorded, then its caller is resolved. The walk ends, not
/// corrupted, where the caller is the entry point. It ends corrupted where
/// the caller is invalid or would be one frame too many, and with a
/// processing error where a read fails.
pub open spec fn walk(
    image: &ProgramImage,
    ram: RamBounds,
    memory: &MemoryImage,
    trace: Trace,
    registers: Registers,
) -> Trace
    decreases remaining(trace.frames.len()),
{
    if trace.frames.len() >= MAX_FRAMES {
        corrupt(trace)
    } else {
        let trace = recorded(trace, registers);
        match resolve(image, ram, memory, registers) {
            Resolved::Entry => trace,
            Resolved::Invalid => corrupt(trace),
            Resolved::Unreadable(address) => failed(
                trace,
                ProcessingError::MemoryRead { address },
            ),
            Resolved::Caller(caller) => walk(image, ram, memory, trace, caller),
        }
    }
}

/// What unwinding a snapshot gives: nothing but a processing error where the
/// registers could not be read, else the walk from the registers on.
pub open spec fn unwound(image: &ProgramImage, ram: RamBounds, snapshot: &Snapshot) -> Trace {
    match snapshot.registers {
        Some(registers) => walk(image, ram, &snapshot.memory, empty_trace(), registers),
        None => failed(empty_trace(), ProcessingError::RegisterRead),
    }
}

/// A bound on the steps that a walk can still take from a state of progress.
pub open spec fn effort(recorded: nat, progress: Progress) -> nat {
    3 * remaining(recorded) + match progress {
        Progress::Begin(_) => 0nat,
        Progress::ReturnAddressKnown { .. } => 2nat,
        Progress::CallerKnown { .. } => 1nat,
    }
}

/// A walk that has ended with the given trace.
pub open spec fn ended(trace: Trace) -> Walk {
    Walk { trace, stage: Stage::Finished }
}

/// The walk from a state of progress up to the next read: the unwinder goes
/// on for as long as the values it needs are at hand, and stops where it has
/// to wait for a word of memory or where the walk ends.
pub open spec fn advance(image: &ProgramImage, ram: RamBounds, trace: Trace, progress: Progress)
    -> Walk
    decreases effort(trace.frames.len(), progress),
{
    match progress {
        Progress::Begin(registers) => if trace.frames.len() >= MAX_FRAMES {
            ended(corrupt(trace))
        } else {
            let trace = recorded(trace, registers);
            match plan_of(image.unwind_row(registers.program_counter), registers) {
                None => ended(corrupt(trace)),
                Some(plan) => match plan.return_address {
                    Source::Held(return_address) => advance(
                        image,
                        ram,
                        trace,
                        Progress::ReturnAddressKnown {
                            caller_stack_pointer: plan.caller_stack_pointer,
                            return_address,
                            frame_pointer: plan.frame_pointer,
                        },
                    ),
                    Source::Stored(address) => Walk {
                        trace,
                        stage: Stage::ReturnAddress {
                            caller_stack_pointer: plan.caller_stack_pointer,
                            address,
                            frame_pointer: plan.frame_pointer,
                        },
                    },
                },
            }
        },
        Progress::ReturnAddressKnown { caller_stack_pointer, return_address, frame_pointer } => {
            match frame_pointer {
                Source::Held(frame_pointer) => advance(
                    image,
                    ram,
                    trace,
                    Progress::CallerKnown { caller_stack_pointer, return_address, frame_pointer },
                ),
                Source::Stored(address) => Walk {
                    trace,
                    stage: Stage::FramePointer { caller_stack_pointer, return_address, address },
                },
            }
        },
        Progress::CallerKnown { caller_stack_pointer, return_address, frame_pointer } => {
            match conclusion(image, ram, caller_stack_pointer, return_address, frame_pointer) {
                Verdict::Entry => ended(trace),
                Verdict::Invalid => ended(corrupt(trace)),
                Verdict::Caller(caller) => advance(image, ram, trace, Progress::Begin(caller)),
            }
        },
    }
}

/// The read that a walk waits for.
pub open spec fn request_of(stage: Stage) -> Request {
    match stage {
        Stage::Registers => Request::Registers,
        Stage::ReturnAddress { address, .. } => Request::Word { address },
        Stage::FramePointer { address, .. } => Request::Word { address },
        Stage::Finished => Request::Nothing,
    }
}

/// The walk after the reply to its request. A reply that is not of the kind
/// that was asked for counts as a failed read; a walk that has ended stays as
/// it is.
pub open spec fn after(image: &ProgramImage, ram: RamBounds, walk: Walk, reply: Reply) -> Walk {
    match walk.stage {
        Stage::Finished => walk,
        Stage::Registers => match reply {
            Reply::Registers(registers) => advance(
                image,
                ram,
                walk.trace,
                Progress::Begin(registers),
            ),
            _ => ended(failed(walk.trace, ProcessingError::RegisterRead)),
        },
        Stage::ReturnAddress { caller_stack_pointer, address, frame_pointer } => match reply {
            Reply::Word(return_address) => advance(
                image,
                ram,
                walk.trace,
                Progress::ReturnAddressKnown { caller_stack_pointer, return_address, frame_pointer },
            ),
            _ => ended(failed(walk.trace, ProcessingError::MemoryRead { address })),
        },
        Stage::FramePointer { caller_stack_pointer, return_address, address } => match reply {
            Reply::Word(frame_pointer) => advance(
                image,
                ram,
                walk.trace,
                Progress::CallerKnown { caller_stack_pointer, return_address, frame_pointer },
            ),
            _ => ended(failed(walk.trace, ProcessingError::MemoryRead { address })),
        },
    }
}

/// A bound on the replies that a walk can still take: it falls with every
/// reply, so no walk goes on for ever.
pub open spec fn fuel(walk: Walk) -> nat {
    let recorded = walk.trace.frames.len();
    match walk.stage {
        Stage::Finished => 0,
        Stage::Registers => 3 * remaining(recorded) + 1,
        Stage::ReturnAddress { .. } => 3 * remaining(recorded) + 3,
        Stage::FramePointer { .. } => 3 * remaining(recorded) + 2,
    }
}

/// What a snapshot replies to a request.
pub open spec fn answer(snapshot: &Snapshot, request: Request) -> Reply {
    match request {
        Request::Registers => match snapshot.registers {
            Some(registers) => Reply::Registers(registers),
            None => Reply::Failed,
        },
        Request::Word { address } => match snapshot.memory.word_at(address) {
            Some(word) => Reply::Word(word),
            None => Reply::Failed,
        },
        Request::Nothing => Reply::Failed,
    }
}

/// The trace that a walk ends with once a return address has been read.
pub open spec fn after_return_address(
    image: &ProgramImage,
    ram: RamBounds,
    memory: &MemoryImage,
    trace: Trace,
    caller_stack_pointer: u32,
    return_address: u32,
    frame_pointer: Source,
) -> Trace {
    match fetched(memory, frame_pointer) {
        Err(address) => failed(trace, ProcessingError::MemoryRead { address }),
        Ok(frame_pointer) => after_caller(
            image,
            ram,
            memory,
            trace,
            caller_stack_pointer,
            return_address,
            frame_pointer,
        ),
    }
}

/// The trace that a walk ends with once the registers of a caller are known.
pub open spec fn after_caller(
    image: &ProgramImage,
    ram: RamBounds,
    memory: &MemoryImage,
    trace: Trace,
    caller_stack_pointer: u32,
    return_address: u32,
    frame_pointer: u32,
) -> Trace {
    match conclusion(image, ram, caller_stack_pointer, return_address, frame_pointer) {
        Verdict::Entry => trace,
        Verdict::Invalid => corrupt(trace),
        Verdict::Caller(caller) => walk(image, ram, memory, trace, caller),
    }
}

/// The trace that a walk ends with from a state of progress.
pub open spec fn continuation(
    image: &ProgramImage,
    ram: RamBounds,
    memory: &MemoryImage,
    trace: Trace,
    progress: Progress,
) -> Trace {
    match progress {
        Progress::Begin(registers) => walk(image, ram, memory, trace, registers),
        Progress::ReturnAddressKnown { caller_stack_pointer, return_address, frame_pointer } =>
            after_return_address(
            image,
            ram,
            memory,
            trace,
            caller_stack_pointer,
            return_address,
            frame_pointer,
        ),
        Progress::CallerKnown { caller_stack_pointer, return_address, frame_pointer } =>
            after_caller(
            image,
            ram,
            memory,
            trace,
            caller_stack_pointer,
            return_address,
            frame_pointer,
        ),
    }
}

/// The trace that a walk in progress ends with where every reply comes from
/// the snapshot.
pub open spec fn destination(image: &ProgramImage, ram: RamBounds, snapshot: &Snapshot, walk: Walk)
    -> Trace {
    match walk.stage {
        Stage::Finished => walk.trace,
        Stage::Registers => match snapshot.registers {
            Some(registers) => self::walk(image, ram, &snapshot.memory, walk.trace, registers),
            None => failed(walk.trace, ProcessingError::RegisterRead),
        },
        Stage::ReturnAddress { caller_stack_pointer, address, frame_pointer } => {
            match snapshot.memory.word_at(address) {
                Some(return_address) => after_return_address(
                    image,
                    ram,
                    &snapshot.memory,
                    walk.trace,
                    caller_stack_pointer,
                    return_address,
                    frame_pointer,
                ),
                None => failed(walk.trace, ProcessingError::MemoryRead { address }),
            }
        },
        Stage::FramePointer { caller_stack_pointer, return_address, address } => {
            match snapshot.memory.word_at(address) {
                Some(frame_pointer) => after_caller(
                    image,
                    ram,
                    &snapshot.memory,
                    walk.trace,
                    caller_stack_pointer,
                    return_address,
                    frame_pointer,
                ),
                None => failed(walk.trace, ProcessingError::MemoryRead { address }),
            }
        },
    }
}

/// The unwinder stops for a read no later than its effort allows.
proof fn lemma_advance_spends_effort(
    image: &ProgramImage,
    ram: RamBounds,
    trace: Trace,
    progress: Progress,
)
    ensures
        fuel(advance(image, ram, trace, progress)) <= effort(trace.frames.len(), progress),
    decreases effort(trace.frames.len(), progress),
{
    match progress {
        Progress::Begin(registers) => {
            if trace.frames.len() < MAX_FRAMES {
                let trace = recorded(trace, registers);
                match plan_of(image.unwind_row(registers.program_counter), registers) {
                    None => {},
                    Some(plan) => match plan.return_address {
                        Source::Held(return_address) => {
                            lemma_advance_spends_effort(
                                image,
                                ram,
                                trace,
                                Progress::ReturnAddressKnown {
                                    caller_stack_pointer: plan.caller_stack_pointer,
                                    return_address,
                                    frame_pointer: plan.frame_pointer,
                                },
                            );
                        },
                        Source::Stored(_) => {},
                    },
                }
            }
        },
        Progress::ReturnAddressKnown { caller_stack_pointer, return_address, frame_pointer } => {
            match frame_pointer {
                Source::Held(frame_pointer) => {
                    lemma_advance_spends_effort(
                        image,
                        ram,
                        trace,
                        Progress::CallerKnown {
                            caller_stack_pointer,
                            return_address,
                            frame_pointer,
                        },
                    );
                },
                Source::Stored(_) => {},
            }
        },
        Progress::CallerKnown { caller_stack_pointer, return_address, frame_pointer } => {
            match conclusion(image, ram, caller_stack_pointer, return_address, frame_pointer) {
                Verdict::Caller(caller) => {
                    lemma_advance_spends_effort(image, ram, trace, Progress::Begin(caller));
                },
                _ => {},
            }
        },
    }
}

/// Where the unwinder stops for a read, the rest of the walk is the one that
/// the model describes.
proof fn lemma_advance_follows_walk(
    image: &ProgramImage,
    ram: RamBounds,
    snapshot: &Snapshot,
    trace: Trace,
    progress: Progress,
)
    ensures
        destination(image, ram, snapshot, advance(image, ram, trace, progress)) == continuation(
            image,
            ram,
            &snapshot.memory,
            trace,
            progress,
        ),
    decreases effort(trace.frames.len(), progress),
{
    match progress {
        Progress::Begin(registers) => {
            if trace.frames.len() < MAX_FRAMES {
                let trace = recorded(trace, registers);
                match plan_of(image.unwind_row(registers.program_counter), registers) {
                    None => {},
                    Some(plan) => match plan.return_address {
                        Source::Held(return_address) => {
                            lemma_advance_follows_walk(
                                image,
                                ram,
                                snapshot,
                                trace,
                                Progress::ReturnAddressKnown {
                                    caller_stack_pointer: plan.caller_stack_pointer,
                                    return_address,
                                    frame_pointer: plan.frame_pointer,
                                },
                            );
                        },
                        Source::Stored(_) => {},
                    },
                }
            }
        },
        Progress::ReturnAddressKnown { caller_stack_pointer, return_address, frame_pointer } => {
            match frame_pointer {
                Source::Held(frame_pointer) => {
                    lemma_advance_follows_walk(
                        image,
                        ram,
                        snapshot,
                        trace,
                        Progress::CallerKnown {
                            caller_stack_pointer,
                            return_address,
                            frame_pointer,
                        },
                    );
                },
                Source::Stored(_) => {},
            }
        },
        Progress::CallerKnown { caller_stack_pointer, return_address, frame_pointer } => {
            match conclusion(image, ram, caller_stack_pointer, return_address, frame_pointer) {
                Verdict::Caller(caller) => {
                    lemma_advance_follows_walk(
                        image,
                        ram,
                        snapshot,
                        trace,
                        Progress::Begin(caller),
                    );
                },
                _ => {},
            }
        },
    }
}

/// An unwinder that is handed what the target holds arrives where the model
/// says, whoever runs it: the walk sets out for `unwound`, every reply that
/// agrees with the snapshot leaves its destination as it was, and a walk that
/// has ended is at its destination.
pub proof fn lemma_reply_keeps_course(
    image: &ProgramImage,
    ram: RamBounds,
    snapshot: &Snapshot,
    walk: Walk,
)
    ensures
        destination(
            image,
            ram,
            snapshot,
            after(image, ram, walk, answer(snapshot, request_of(walk.stage))),
        ) == destination(image, ram, snapshot, walk),
        destination(image, ram, snapshot, Walk { trace: empty_trace(), stage: Stage::Registers })
            == unwound(image, ram, snapshot),
        walk.stage is Finished ==> destination(image, ram, snapshot, walk) == walk.trace,
{
    match walk.stage {
        Stage::Finished => {},
        Stage::Registers => match snapshot.registers {
            Some(registers) => {
                lemma_advance_follows_walk(
                    image,
                    ram,
                    snapshot,
                    walk.trace,
                    Progress::Begin(registers),
                );
            },
            None => {},
        },
        Stage::ReturnAddress { caller_stack_pointer, address, frame_pointer } => {
            match snapshot.memory.word_at(address) {
                Some(return_address) => {
                    lemma_advance_follows_walk(
                        image,
                        ram,
                        snapshot,
                        walk.trace,
                        Progress::ReturnAddressKnown {
                            caller_stack_pointer,
                            return_address,
                            frame_pointer,
                        },
                    );
                },
                None => {},
            }
        },
        Stage::FramePointer { caller_stack_pointer, return_address, address } => {
            match snapshot.memory.word_at(address) {
                Some(frame_pointer) => {
                    lemma_advance_follows_walk(
                        image,
                        ram,
                        snapshot,
                        walk.trace,
                        Progress::CallerKnown {
                            caller_stack_pointer,
                            return_address,
                            frame_pointer,
                        },
                    );
                },
                None => {},
            }
        },
    }
}

/// Clears the bit that marks Thumb code in a return address.
pub fn clear_thumb_bit(address: u32) -> (r: u32)
    ensures
        r == without_thumb_bit(address),
{
    address - address % 2
}

/// Applies a rule of the call-frame information.
fn locate(rule: SaveRule, held: u32, cfa: u32) -> (r: Option<Source>)
    ensures
        r == source_of(rule, held, cfa),
{
    match rule {
        SaveRule::Unchanged => Some(Source::Held(held)),
        SaveRule::BelowCfa(distance) => if distance <= cfa {
            Some(Source::Stored(cfa - distance))
        } else {
            None
        },
    }
}

/// Plans how to recover the caller of the frame with these registers: by the
/// call-frame information for its program counter or, where the image holds
/// none, from the record at the frame pointer.
pub fn plan(image: &ProgramImage, registers: &Registers) -> (r: Option<Plan>)
    ensures
        r == plan_of(image.unwind_row(registers.program_counter), *registers),
{
    match image.unwind_row_at(registers.program_counter) {
        Some(row) => {
            let base = match row.cfa_base {
                CfaBase::StackPointer => registers.stack_pointer,
                CfaBase::FramePointer => registers.frame_pointer,
            };
            if row.cfa_offset > u32::MAX - base {
                return None;
            }
            let cfa: u32 = base + row.cfa_offset;
            let return_address = locate(row.return_address, registers.link_register, cfa);
            let frame_pointer = locate(row.frame_pointer, registers.frame_pointer, cfa);
            match (return_address, frame_pointer) {
                (Some(return_address), Some(frame_pointer)) => Some(
                    Plan { caller_stack_pointer: cfa, return_address, frame_pointer },
                ),
                _ => None,
            }
        },
        None => if registers.frame_pointer > u32::MAX - FRAME_RECORD_SIZE {
            None
        } else {
            Some(
                Plan {
                    caller_stack_pointer: registers.frame_pointer + FRAME_RECORD_SIZE,
                    return_address: Source::Stored(
                        registers.frame_pointer + RETURN_ADDRESS_OFFSET,
                    ),
                    frame_pointer: Source::Stored(registers.frame_pointer),
                },
            )
        },
    }
}

/// Judges the recovered registers of a caller: the entry point ends the walk,
/// a program counter outside the code or a stack pointer outside the RAM is
/// an inconsistency, anything else is the next frame.
pub fn conclude(
    image: &ProgramImage,
    ram: &RamBounds,
    caller_stack_pointer: u32,
    return_address: u32,
    frame_pointer: u32,
) -> (r: Verdict)
    ensures
        r == conclusion(image, *ram, caller_stack_pointer, return_address, frame_pointer),
{
    let program_counter = clear_thumb_bit(return_address);
    if program_counter == image.entry_point() {
        Verdict::Entry
    } else if !image.holds_code(program_counter) || !ram.contains(caller_stack_pointer) {
        Verdict::Invalid
    } else {
        Verdict::Caller(
            Registers {
                program_counter,
                stack_pointer: caller_stack_pointer,
                link_register: return_address,
                frame_pointer,
            },
        )
    }
}

/// A walk of the call stack that is told what the target holds, one read at
/// a time. Ask it with `request` what to read, hand the result to `step`, and
/// take the frames with `finish` once it asks for nothing.
pub struct Unwinder {
    frames: Vec<RawFrame>,
    corrupted: bool,
    processing_error: Option<ProcessingError>,
    stage: Stage,
}

impl View for Unwinder {
    type V = Walk;

    closed spec fn view(&self) -> Walk {
        Walk {
            trace: Trace {
                frames: self.frames@,
                corrupted: self.corrupted,
                processing_error: self.processing_error,
            },
            stage: self.stage,
        }
    }
}

impl Unwinder {
    /// A walk that has gathered nothing and waits for the registers.
    pub fn new() -> (unwinder: Unwinder)
        ensures
            unwinder@ == (Walk { trace: empty_trace(), stage: Stage::Registers }),
    {
        Unwinder {
            frames: Vec::new(),
            corrupted: false,
            processing_error: None,
            stage: Stage::Registers,
        }
    }

    /// The read that the walk waits for.
    pub fn request(&self) -> (request: Request)
        ensures
            request == request_of(self@.stage),
    {
        match self.stage {
            Stage::Registers => Request::Registers,
            Stage::ReturnAddress { address, .. } => Request::Word { address },
            Stage::FramePointer { address, .. } => Request::Word { address },
            Stage::Finished => Request::Nothing,
        }
    }

    /// Whether the walk has ended.
    pub fn is_finished(&self) -> (r: bool)
        ensures
            r == (self@.stage is Finished),
    {
        match self.stage {
            Stage::Finished => true,
            _ => false,
        }
    }

    /// Goes on from a state of progress for as long as the values that the
    /// walk needs are at hand.
    fn proceed(&mut self, progress: Progress, image: &ProgramImage, ram: &RamBounds)
        ensures
            final(self)@ == advance(image, *ram, old(self)@.trace, progress),
    {
        let ghost goal = advance(image, *ram, self@.trace, progress);
        let mut pending = Some(progress);
        while pending.is_some()
            invariant
                match pending {
                    Some(progress) => advance(image, *ram, self@.trace, progress) == goal,
                    None => self@ == goal,
                },
            decreases
                    match pending {
                        Some(progress) => effort(self@.trace.frames.len(), progress) + 1,
                        None => 0nat,
                    },
        {
            match pending.unwrap() {
                Progress::Begin(registers) => {
                    if self.frames.len() >= MAX_FRAMES {
                        self.corrupted = true;
                        self.stage = Stage::Finished;
                        pending = None;
                    } else {
                        self.frames.push(RawFrame::record(registers));
                        match plan(image, &registers) {
                            None => {
                                self.corrupted = true;
                                self.stage = Stage::Finished;
                                pending = None;
                            },
                            Some(plan) => match plan.return_address {
                                Source::Held(return_address) => {
                                    pending = Some(
                                        Progress::ReturnAddressKnown {
                                            caller_stack_pointer: plan.caller_stack_pointer,
                                            return_address,
                                            frame_pointer: plan.frame_pointer,
                                        },
                                    );
                                },
                                Source::Stored(address) => {
                                    self.stage = Stage::ReturnAddress {
                                        caller_stack_pointer: plan.caller_stack_pointer,
                                        address,
                                        frame_pointer: plan.frame_pointer,
                                    };
                                    pending = None;
                                },
                            },
                        }
                    }
                },
                Progress::ReturnAddressKnown {
                    caller_stack_pointer,
                    return_address,
                    frame_pointer,
                } => match frame_pointer {
                    Source::Held(frame_pointer) => {
                        pending = Some(
                            Progress::CallerKnown {
                                caller_stack_pointer,
                                return_address,
                                frame_pointer,
                            },
                        );
                    },
                    Source::Stored(address) => {
                        self.stage = Stage::FramePointer {
                            caller_stack_pointer,
                            return_address,
                            address,
                        };
                        pending = None;
                    },
                },
                Progress::CallerKnown { caller_stack_pointer, return_address, frame_pointer } => {
                    match conclude(
                        image,
                        ram,
                        caller_stack_pointer,
                        return_address,
                        frame_pointer,
                    ) {
                        Verdict::Entry => {
                            self.stage = Stage::Finished;
                            pending = None;
                        },
                        Verdict::Invalid => {
                            self.corrupted = true;
                            self.stage = Stage::Finished;
                            pending = None;
                        },
                        Verdict::Caller(caller) => {
                            pending = Some(Progress::Begin(caller));
                        },
                    }
                },
            }
        }
    }

    /// Takes the reply to the request and goes on with the walk, up to the
    /// next read or to its end. Every reply brings the walk nearer to its
    /// end: `fuel` falls.
    pub fn step(&mut self, reply: Reply, image: &ProgramImage, ram: &RamBounds)
        ensures
            final(self)@ == after(image, *ram, old(self)@, reply),
            !(old(self)@.stage is Finished) ==> fuel(final(self)@) < fuel(old(self)@),
    {
        let taken: Result<Progress, ProcessingError> = match self.stage {
            Stage::Finished => {
                return ;
            },
            Stage::Registers => match reply {
                Reply::Registers(registers) => Ok(Progress::Begin(registers)),
                _ => Err(ProcessingError::RegisterRead),
            },
            Stage::ReturnAddress { caller_stack_pointer, address, frame_pointer } => match reply {
                Reply::Word(return_address) => Ok(
                    Progress::ReturnAddressKnown {
                        caller_stack_pointer,
                        return_address,
                        frame_pointer,
                    },
                ),
                _ => Err(ProcessingError::MemoryRead { address }),
            },
            Stage::FramePointer { caller_stack_pointer, return_address, address } => match reply {
                Reply::Word(frame_pointer) => Ok(
                    Progress::CallerKnown { caller_stack_pointer, return_address, frame_pointer },
                ),
                _ => Err(ProcessingError::MemoryRead { address }),
            },
        };
        match taken {
            Ok(progress) => {
                proof {
                    lemma_advance_spends_effort(image, *ram, self@.trace, progress);
                }
                self.proceed(progress, image, ram);
            },
            Err(error) => {
                self.processing_error = Some(error);
                self.stage = Stage::Finished;
            },
        }
    }

    /// The frames that the walk has gathered, and how it ended.
    pub fn finish(self) -> (store: FrameStore)
        ensures
            store@ == self@.trace,
    {
        FrameStore {
            raw_frames: self.frames,
            corrupted: self.corrupted,
            processing_error: self.processing_error,
        }
    }
}

impl Snapshot {
    /// What the snapshot holds of what is asked for.
    pub fn reply_to(&self, request: Request) -> (reply: Reply)
        ensures
            reply == answer(self, request),
    {
        match request {
            Request::Registers => match self.registers {
                Some(registers) => Reply::Registers(registers),
                None => Reply::Failed,
            },
            Request::Word { address } => match self.memory.read_word(address) {
                Some(word) => Reply::Word(word),
                None => Reply::Failed,
            },
            Request::Nothing => Reply::Failed,
        }
    }
}

/// Unwinds the call stack of a captured target.
pub fn unwind(snapshot: &Snapshot, image: &ProgramImage, ram: &RamBounds) -> (store: FrameStore)
    ensures
        store@ == unwound(image, *ram, snapshot),
{
    let mut unwinder = Unwinder::new();
    while !unwinder.is_finished()
        invariant
            destination(image, *ram, snapshot, unwinder@) == unwound(image, *ram, snapshot),
        decreases fuel(unwinder@),
    {
        let reply = snapshot.reply_to(unwinder.request());
        proof {
            lemma_reply_keeps_course(image, *ram, snapshot, unwinder@);
        }
        unwinder.step(reply, image, ram);
    }
    unwinder.finish()
}

/// Whether the frame at `index` is recorded from its registers as `record`
/// does it, and the frame behind it, if there is one, is its caller.
pub open spec fn follows(
    image: &ProgramImage,
    ram: RamBounds,
    memory: &MemoryImage,
    frames: Seq<RawFrame>,
    index: int,
) -> bool {
    &&& frames[index] == frame_of(registers_of(frames[index]))
    &&& index + 1 < frames.len() ==> resolve(image, ram, memory, registers_of(frames[index]))
        == Resolved::Caller(registers_of(frames[index + 1]))
}

/// Whether the frames are a call chain, innermost first: each frame is the
/// caller of the one before it.
pub open spec fn is_call_chain(
    image: &ProgramImage,
    ram: RamBounds,
    memory: &MemoryImage,
    frames: Seq<RawFrame>,
) -> bool {
    forall|index: int|
        0 <= index < frames.len() ==> #[trigger] follows(image, ram, memory, frames, index)
}

/// Whether the walk reached the entry point: the caller of its last frame is
/// the entry point.
pub open spec fn reached_entry(
    image: &ProgramImage,
    ram: RamBounds,
    memory: &MemoryImage,
    trace: Trace,
) -> bool {
    trace.frames.len() > 0 && resolve(image, ram, memory, registers_of(trace.frames.last()))
        is Entry
}

/// What holds of a walk from any frame on, given that it holds of the frames
/// before.
proof fn lemma_walk_goes_on(
    image: &ProgramImage,
    ram: RamBounds,
    memory: &MemoryImage,
    trace: Trace,
    registers: Registers,
)
    requires
        trace.frames.len() <= MAX_FRAMES,
        !trace.corrupted,
        trace.processing_error is None,
        is_call_chain(image, ram, memory, trace.frames),
        trace.frames.len() > 0 ==> resolve(image, ram, memory, registers_of(trace.frames.last()))
            == Resolved::Caller(registers),
    ensures
        ({
            let end = walk(image, ram, memory, trace, registers);
            &&& end.frames.len() <= MAX_FRAMES
            &&& trace.frames.len() < MAX_FRAMES ==> end.frames.len() > trace.frames.len()
            &&& is_call_chain(image, ram, memory, end.frames)
            &&& reached_entry(image, ram, memory, end) <==> !end.corrupted
                && end.processing_error is None
            &&& !(end.corrupted && end.processing_error is Some)
        }),
    decreases remaining(trace.frames.len()),
{
    if trace.frames.len() < MAX_FRAMES {
        let next = recorded(trace, registers);
        assert forall|index: int| 0 <= index < next.frames.len() implies #[trigger] follows(
            image,
            ram,
            memory,
            next.frames,
            index,
        ) by {
            if index < trace.frames.len() {
                assert(follows(image, ram, memory, trace.frames, index));
            }
        }
        match resolve(image, ram, memory, registers) {
            Resolved::Caller(caller) => {
                lemma_walk_goes_on(image, ram, memory, next, caller);
            },
            _ => {},
        }
    }
}

/// The walk is bounded, and what it gathers is a call chain: it records at
/// least one frame where the registers could be read and never more than
/// `MAX_FRAMES`, and each frame is the caller of the one before it. So the
/// frames gathered before a failed read or an inconsistency are valid.
pub proof fn lemma_walk_is_a_bounded_chain(
    image: &ProgramImage,
    ram: RamBounds,
    snapshot: &Snapshot,
)
    ensures
        unwound(image, ram, snapshot).frames.len() <= MAX_FRAMES,
        snapshot.registers is Some <==> unwound(image, ram, snapshot).frames.len() > 0,
        is_call_chain(image, ram, &snapshot.memory, unwound(image, ram, snapshot).frames),
{
    match snapshot.registers {
        Some(registers) => {
            lemma_walk_goes_on(image, ram, &snapshot.memory, empty_trace(), registers);
        },
        None => {},
    }
}

/// A corrupted walk ended without reaching the entry point. More than that:
/// the walk reached the entry point if and only if it is neither corrupted
/// nor cut short by a failed read, and it is never both.
pub proof fn lemma_corrupted_walk_stopped_short(
    image: &ProgramImage,
    ram: RamBounds,
    snapshot: &Snapshot,
)
    ensures
        unwound(image, ram, snapshot).corrupted ==> !reached_entry(
            image,
            ram,
            &snapshot.memory,
            unwound(image, ram, snapshot),
        ),
        reached_entry(image, ram, &snapshot.memory, unwound(image, ram, snapshot)) <==> !unwound(
            image,
            ram,
            snapshot,
        ).corrupted && unwound(image, ram, snapshot).processing_error is None,
        !(unwound(image, ram, snapshot).corrupted && unwound(
            image,
            ram,
            snapshot,
        ).processing_error is Some),
{
    match snapshot.registers {
        Some(registers) => {
            lemma_walk_goes_on(image, ram, &snapshot.memory, empty_trace(), registers);
        },
        None => {},
    }
}

} // verus!
