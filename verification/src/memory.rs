//! A captured copy of target memory, for unwinding without a live target.

use vstd::prelude::*;
use crate::frame::Registers;

verus! {

/// Consecutive 32-bit words of target memory, the first one at `base`.
#[derive(Clone, Debug, PartialEq, Eq)]
pub struct MemoryRegion {
    pub base: u32,
    pub words: Vec<u32>,
}

/// The parts of target memory that were captured. A read of any other
/// address fails, as a read of unmapped memory does on the target.
#[derive(Clone, Debug, PartialEq, Eq)]
pub struct MemoryImage {
    pub regions: Vec<MemoryRegion>,
}

/// The state of a halted target: its registers, where they could be read, and
/// its memory.
#[derive(Clone, Debug, PartialEq, Eq)]
pub struct Snapshot {
    pub registers: Option<Registers>,
    pub memory: MemoryImage,
}

impl MemoryRegion {
    /// Whether the region holds the word at the address: the address lies a
    /// whole number of words behind `base`, within the region.
    pub open spec fn holds(&self, address: u32) -> bool {
        &&& self.base <= address
        &&& (address - self.base) % 4 == 0
        &&& (address - self.base) / 4 < self.words@.len()
    }

    /// The word at an address that the region holds.
    pub open spec fn word(&self, address: u32) -> u32 {
        self.words@[(address - self.base) / 4]
    }

    /// Reads the word at the address, if the region holds it.
    pub fn read(&self, address: u32) -> (r: Option<u32>)
        ensures
            r == if self.holds(address) {
                Some(self.word(address))
            } else {
                None
            },
    {
        if address < self.base {
            return None;
        }
        let offset: u32 = address - self.base;
        if offset % 4 != 0 {
            return None;
        }
        let index: usize = (offset / 4) as usize;
        if index < self.words.len() {
            Some(self.words[index])
        } else {
            None
        }
    }
}

/// The word at the address in the first of the regions from `from` on that
/// holds it.
pub open spec fn word_from(regions: Seq<MemoryRegion>, address: u32, from: int) -> Option<u32>
    decreases regions.len() - from,
{
    if from < 0 || from >= regions.len() {
        None
    } else if regions[from].holds(address) {
        Some(regions[from].word(address))
    } else {
        word_from(regions, address, from + 1)
    }
}

impl MemoryImage {
    /// The word at the address, taken from the first region that holds it.
    pub open spec fn word_at(&self, address: u32) -> Option<u32> {
        word_from(self.regions@, address, 0)
    }

    /// Reads the word at the address. Fails where no region holds it.
    pub fn read_word(&self, address: u32) -> (r: Option<u32>)
        ensures
            r == self.word_at(address),
    {
        let mut i: usize = 0;
        while i < self.regions.len()
            invariant
                i <= self.regions.len(),
                self.word_at(address) == word_from(self.regions@, address, i as int),
            decreases self.regions.len() - i,
        {
            let found = self.regions[i].read(address);
            if found.is_some() {
                return found;
            }
            i += 1;
        }
        None
    }
}

} // verus!
