use vstd::prelude::*;

verus! {

/// The fatal error kinds of the emulator: all are programmer or input errors
/// with no recovery policy.
#[derive(Debug, PartialEq, Eq, Structural, Clone, Copy)]
pub enum EmuError {
    /// One of the eleven architecturally undefined opcodes was fetched.
    UnknownInstruction(u8),
    /// A ROM image larger than the 64 KiB address space was offered.
    RomTooLarge,
}

} // verus!
