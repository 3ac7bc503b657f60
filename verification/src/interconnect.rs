//! The system bus collaborator: a physical-address-addressable word store.
//!
//! The core consumes the interconnect read-only, one aligned 32-bit word at a
//! time. It is modeled as a contiguous run of words starting at a fixed base
//! physical address; a read outside that run, or at a misaligned address, is a
//! bus error, which the core treats as fatal. The store holds whole 32-bit
//! words, so no byte-order convention enters the core: whichever collaborator
//! fills the store settles how bytes were assembled into words.

use vstd::prelude::*;

use crate::errors::EmuError;

verus! {

/// A contiguous, word-granular region of physical memory.
#[derive(Debug)]
pub struct Interconnect {
    /// Physical address of the first backed word.
    pub base: u32,
    /// The backed words, in address order: `words[i]` sits at `base + 4 * i`.
    pub words: Vec<u32>,
}

/// Whether physical address `physical_addr` is backed by a word of `ic`:
/// at or above the base, word-aligned relative to it, and within the run.
pub open spec fn ic_backs(ic: Interconnect, physical_addr: u32) -> bool {
    &&& ic.base <= physical_addr
    &&& (physical_addr - ic.base) % 4 == 0
    &&& (physical_addr - ic.base) / 4 < ic.words@.len()
}

/// The word of `ic` at backed physical address `physical_addr`.
pub open spec fn ic_word_at(ic: Interconnect, physical_addr: u32) -> u32 {
    ic.words@[(physical_addr - ic.base) / 4]
}

/// What a bus read returns: the backed word, or a bus error naming the
/// unserviceable physical address.
pub open spec fn spec_ic_read(ic: Interconnect, physical_addr: u32) -> Result<u32, EmuError> {
    if ic_backs(ic, physical_addr) {
        Ok(ic_word_at(ic, physical_addr))
    } else {
        Err(EmuError::UnbackedAddress { physical_addr })
    }
}

impl Interconnect {
    /// A region whose first word sits at physical address `base`.
    pub fn new(base: u32, words: Vec<u32>) -> (ic: Interconnect)
        ensures
            ic.base == base,
            ic.words@ == words@,
    {
        Interconnect { base, words }
    }

    /// Reads the 32-bit word at a physical address; fails on any address the
    /// region does not back.
    pub fn read_word(&self, physical_addr: u32) -> (r: Result<u32, EmuError>)
        ensures
            r == spec_ic_read(*self, physical_addr),
    {
        if physical_addr >= self.base {
            let offset = physical_addr - self.base;
            if offset % 4 == 0 {
                let index = (offset / 4) as usize;
                if index < self.words.len() {
                    return Ok(self.words[index]);
                }
            }
        }
        Err(EmuError::UnbackedAddress { physical_addr })
    }
}

} // verus!
