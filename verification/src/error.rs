use vstd::prelude::*;

verus! {

/// Fatal conditions raised by the interpreter and reported to the driver,
/// each carrying the offending value for diagnostics.
#[derive(Clone, Copy, Debug, PartialEq, Eq, Structural)]
pub enum VmError {
    /// The ROM image does not fit in the program region of memory.
    RomTooLarge(usize),
    /// The fetched instruction word matches no known encoding.
    UnknownOpcode(u16),
    /// The program counter left the fetchable region at a fetch.
    PcOutOfBounds(u16),
    /// A call was made with the call stack already full.
    StackOverflow,
    /// A return was made with no call outstanding.
    StackUnderflow,
    /// A memory-addressed instruction reached past the end of memory;
    /// carries the first address past the end of the access.
    MemoryOutOfBounds(usize),
    /// A key-testing instruction named a key index above 0xF.
    KeyOutOfRange(u8),
}

} // verus!
