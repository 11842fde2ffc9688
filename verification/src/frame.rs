//! The raw result of an unwind: the register sets of the frames that were
//! walked, innermost first, and how the walk ended.

use vstd::prelude::*;

verus! {

/// First value of the link register that marks an exception return. The
/// processor loads such a value when it enters an exception handler, in place
/// of an ordinary return address.
pub const EXC_RETURN_MARKER: u32 = 0xFFFF_FFE0;

/// The value that the link register holds after reset. It marks the outermost
/// frame and is no exception return.
pub const LR_END: u32 = 0xFFFF_FFFF;

/// The registers that identify one frame of the call stack.
#[derive(Clone, Copy, Debug, PartialEq, Eq, Structural)]
pub struct Registers {
    pub program_counter: u32,
    pub stack_pointer: u32,
    pub link_register: u32,
    pub frame_pointer: u32,
}

/// One step of the call-stack walk, before symbol resolution.
#[derive(Clone, Copy, Debug, PartialEq, Eq, Structural)]
pub struct RawFrame {
    pub program_counter: u32,
    pub stack_pointer: u32,
    pub link_register: u32,
    pub frame_pointer: u32,
    /// The frame was entered by a fault or an interrupt, not by a call.
    pub is_exception_frame: bool,
}

/// A failure to read the target that cut the walk short.
#[derive(Clone, Copy, Debug, PartialEq, Eq, Structural)]
pub enum ProcessingError {
    /// The register file could not be read, so there is no first frame.
    RegisterRead,
    /// The word at `address` could not be read.
    MemoryRead { address: u32 },
}

/// The frames of one unwind and its diagnostics.
#[derive(Clone, Debug, PartialEq, Eq)]
pub struct FrameStore {
    /// The frames that were walked, innermost first.
    pub raw_frames: Vec<RawFrame>,
    /// The walk stopped short of the entry point at an inconsistency: an
    /// address outside every valid range, or the limit on the frame count.
    pub corrupted: bool,
    /// The read failure that stopped the walk, if one did. The frames
    /// gathered before it are valid.
    pub processing_error: Option<ProcessingError>,
}

/// What a walk has gathered: a `FrameStore` as a value of mathematics.
pub struct Trace {
    pub frames: Seq<RawFrame>,
    pub corrupted: bool,
    pub processing_error: Option<ProcessingError>,
}

impl View for FrameStore {
    type V = Trace;

    open spec fn view(&self) -> Trace {
        Trace {
            frames: self.raw_frames@,
            corrupted: self.corrupted,
            processing_error: self.processing_error,
        }
    }
}

/// The address range that the target's stack may occupy, both ends included:
/// a full descending stack starts with its pointer at `upper`.
#[derive(Clone, Copy, Debug, PartialEq, Eq, Structural)]
pub struct RamBounds {
    pub lower: u32,
    pub upper: u32,
}

/// Whether a link register value is an exception return.
pub open spec fn is_exception_return(link_register: u32) -> bool {
    EXC_RETURN_MARKER <= link_register < LR_END
}

/// Tells an exception return from an ordinary return address.
pub fn exception_return(link_register: u32) -> (r: bool)
    ensures
        r == is_exception_return(link_register),
{
    EXC_RETURN_MARKER <= link_register && link_register < LR_END
}

/// The frame that a register set is recorded as.
pub open spec fn frame_of(registers: Registers) -> RawFrame {
    RawFrame {
        program_counter: registers.program_counter,
        stack_pointer: registers.stack_pointer,
        link_register: registers.link_register,
        frame_pointer: registers.frame_pointer,
        is_exception_frame: is_exception_return(registers.link_register),
    }
}

/// The register set that a frame was recorded from.
pub open spec fn registers_of(frame: RawFrame) -> Registers {
    Registers {
        program_counter: frame.program_counter,
        stack_pointer: frame.stack_pointer,
        link_register: frame.link_register,
        frame_pointer: frame.frame_pointer,
    }
}

/// Whether any of the frames is an exception frame.
pub open spec fn has_exception_frame(frames: Seq<RawFrame>) -> bool {
    exists|i: int| 0 <= i < frames.len() && (#[trigger] frames[i]).is_exception_frame
}

impl RawFrame {
    /// Records a register set as a frame, and marks it as an exception frame
    /// where its link register holds an exception return.
    pub fn record(registers: Registers) -> (frame: RawFrame)
        ensures
            frame == frame_of(registers),
    {
        RawFrame {
            program_counter: registers.program_counter,
            stack_pointer: registers.stack_pointer,
            link_register: registers.link_register,
            frame_pointer: registers.frame_pointer,
            is_exception_frame: exception_return(registers.link_register),
        }
    }

    /// The registers of the frame.
    pub fn registers(&self) -> (registers: Registers)
        ensures
            registers == registers_of(*self),
    {
        Registers {
            program_counter: self.program_counter,
            stack_pointer: self.stack_pointer,
            link_register: self.link_register,
            frame_pointer: self.frame_pointer,
        }
    }
}

impl RamBounds {
    /// Whether the address lies within the bounds.
    pub open spec fn holds(&self, address: u32) -> bool {
        self.lower <= address <= self.upper
    }

    /// The bounds of a RAM region that holds the addresses `start..end`. The
    /// end of the region is within the bounds, and where the region reaches
    /// the end of the 32-bit address space, so do the bounds. A region that
    /// begins beyond it has none.
    pub fn of_region(start: u64, end: u64) -> (bounds: Option<RamBounds>)
        ensures
            bounds == if start > u32::MAX {
                None
            } else {
                Some(
                    RamBounds {
                        lower: start as u32,
                        upper: if end > u32::MAX {
                            u32::MAX
                        } else {
                            end as u32
                        },
                    },
                )
            },
    {
        if start > u32::MAX as u64 {
            None
        } else {
            Some(
                RamBounds {
                    lower: start as u32,
                    upper: if end > u32::MAX as u64 {
                        u32::MAX
                    } else {
                        end as u32
                    },
                },
            )
        }
    }

    /// Bounds that hold every address, for a target of which it is not known
    /// where its stack may be: no stack pointer tells of an overflow then.
    pub fn unbounded() -> (bounds: RamBounds)
        ensures
            forall|address: u32| bounds.holds(address),
    {
        RamBounds { lower: 0, upper: u32::MAX }
    }

    /// Whether the address lies within the bounds, both ends included.
    pub fn contains(&self, address: u32) -> (r: bool)
        ensures
            r == self.holds(address),
    {
        self.lower <= address && address <= self.upper
    }
}

impl FrameStore {
    /// Whether any frame of the store is an exception frame.
    pub fn contains_exception(&self) -> (r: bool)
        ensures
            r == has_exception_frame(self.raw_frames@),
    {
        let mut i: usize = 0;
        while i < self.raw_frames.len()
            invariant
                i <= self.raw_frames.len(),
                forall|j: int| 0 <= j < i ==> !(#[trigger] self.raw_frames@[j]).is_exception_frame,
            decreases self.raw_frames.len() - i,
        {
            if self.raw_frames[i].is_exception_frame {
                return true;
            }
            i += 1;
        }
        false
    }
}

} // verus!
