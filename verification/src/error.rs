//! The conditions that the machine reports to its caller.

use vstd::prelude::*;

verus! {

/// What can go wrong while a program runs.
#[derive(Clone, Copy, Debug, PartialEq, Eq, Structural)]
pub enum Chip8Error {
    /// The word that was fetched is no instruction. The machine has skipped
    /// it and can go on; the word is handed to the caller to be reported.
    UnknownOpcode(u16),
    /// A subroutine was called while sixteen calls were already pending. The
    /// program cannot go on.
    StackOverflow,
    /// A return was attempted with no call pending. The program cannot go on.
    StackUnderflow,
}

impl Chip8Error {
    /// Whether the program that raised this condition must be stopped.
    pub open spec fn is_fatal(self) -> bool {
        !(self is UnknownOpcode)
    }

    /// Whether the program that raised this condition must be stopped.
    pub fn fatal(&self) -> (b: bool)
        ensures
            b == self.is_fatal(),
    {
        match self {
            Chip8Error::UnknownOpcode(_) => false,
            _ => true,
        }
    }
}

} // verus!
