use vstd::prelude::*;

verus! {

/// A fatal condition of the emulated machine. Each variant corresponds to a
/// genuinely undefined architectural state, never to a recoverable fault, and
/// carries the offending raw value for diagnosis.
#[derive(Clone, Copy, Debug, PartialEq, Eq, Structural)]
pub enum EmuError {
    /// The fetched instruction word has an opcode with no modeled semantics.
    UnrecognizedInstruction { instruction: u32 },
    /// A Config-register write whose data-transfer-pattern field (bits 27:24)
    /// is neither of the two architecturally valid codes.
    InvalidDataTransferPattern { raw: u32 },
    /// A Status-register write whose privilege-mode field (bits 4:3) holds the
    /// invalid encoding `0b11`.
    InvalidPrivilegeMode { raw: u32 },
    /// A virtual address outside the one implemented segment (kseg1).
    UnmappedAddress { virtual_addr: u64 },
    /// A physical address that no backing word of the interconnect serves.
    UnbackedAddress { physical_addr: u32 },
}

} // verus!
