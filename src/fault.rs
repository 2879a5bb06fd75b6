use vstd::prelude::*;

verus! {

/// Why the machine stopped. Every fault is fatal: the driver decides what to do next.
#[derive(Clone, Copy, Debug, PartialEq, Eq, Structural)]
pub enum Fault {
    /// The instruction word matches no defined instruction.
    UnknownInstruction { word: u16 },
    /// A return was executed with an empty call stack.
    StackUnderflow,
    /// A call would nest deeper than the call stack allows.
    StackOverflow,
    /// An instruction fetch or a memory access fell outside memory.
    AddressOutOfRange { address: u32 },
    /// The program counter did not move since the previous instruction.
    NoProgress { pc: u16 },
    /// A program image does not fit between the program origin and the end of memory.
    ImageTooLarge { len: usize },
}

} // verus!
