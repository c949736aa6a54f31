//! The return-address stack used by subroutine call and return.

use crate::error::Chip8Error;
use vstd::prelude::*;

verus! {

/// The number of return addresses the stack can hold.
pub const STACK_DEPTH: usize = 16;

/// The stack after a push of `v`: a full stack stays as it is.
pub open spec fn push_spec(s: Seq<u16>, v: u16) -> Seq<u16> {
    if s.len() < 16 {
        s.push(v)
    } else {
        s
    }
}

/// What a push reports: an overflow exactly when the stack is full.
pub open spec fn push_result(s: Seq<u16>) -> Result<(), Chip8Error> {
    if s.len() < 16 {
        Ok(())
    } else {
        Err(Chip8Error::StackOverflow)
    }
}

/// The stack after a pop: an empty stack stays as it is.
pub open spec fn pop_spec(s: Seq<u16>) -> Seq<u16> {
    if s.len() > 0 {
        s.drop_last()
    } else {
        s
    }
}

/// What a pop yields: the address pushed last, or an underflow exactly when
/// the stack is empty.
pub open spec fn pop_result(s: Seq<u16>) -> Result<u16, Chip8Error> {
    if s.len() > 0 {
        Ok(s.last())
    } else {
        Err(Chip8Error::StackUnderflow)
    }
}

/// What was pushed comes back in reverse order: after pushing `a` and then
/// `b` where there is room for both, the first pop yields `b`, the second
/// yields `a`, and the stack is as it was before.
pub proof fn lemma_push_pop_round_trip(s: Seq<u16>, a: u16, b: u16)
    requires
        s.len() + 2 <= 16,
    ensures
        push_result(s) is Ok,
        push_result(push_spec(s, a)) is Ok,
        pop_result(push_spec(push_spec(s, a), b)) == Ok::<u16, Chip8Error>(b),
        pop_result(pop_spec(push_spec(push_spec(s, a), b))) == Ok::<u16, Chip8Error>(a),
        pop_spec(pop_spec(push_spec(push_spec(s, a), b))) == s,
{
    let two = push_spec(push_spec(s, a), b);
    assert(pop_spec(two) == s.push(a));
    assert(pop_spec(pop_spec(two)) == s);
}

/// Sixteen pushes fill any stack, so that the next push overflows: pushing
/// never makes the stack deeper than sixteen.
pub proof fn lemma_push_bounded(s: Seq<u16>, v: u16)
    requires
        s.len() <= 16,
    ensures
        push_spec(s, v).len() <= 16,
        s.len() == 16 ==> push_result(s) == Err::<(), Chip8Error>(Chip8Error::StackOverflow)
            && push_spec(s, v) == s,
        s.len() == 0 ==> pop_result(s) == Err::<u16, Chip8Error>(Chip8Error::StackUnderflow),
{
}

/// A stack of at most sixteen 16-bit return addresses.
pub struct Stack {
    stack: [u16; 16],
    pointer: usize,
}

impl View for Stack {
    type V = Seq<u16>;

    /// The addresses on the stack, the oldest first.
    closed spec fn view(&self) -> Seq<u16> {
        self.stack@.subrange(0, self.pointer as int)
    }
}

impl Stack {
    /// The invariant of every stack: its pointer stays within the sixteen
    /// slots.
    #[verifier::type_invariant]
    pub closed spec fn inv(&self) -> bool {
        self.pointer <= STACK_DEPTH
    }

    /// A stack holds at most sixteen addresses.
    pub proof fn lemma_inv(&self)
        requires
            self.inv(),
        ensures
            self@.len() <= STACK_DEPTH,
    {
    }

    /// An empty stack.
    pub fn new() -> (s: Self)
        ensures
            s@ == Seq::<u16>::empty(),
    {
        Stack { stack: [0x00_u16; 16], pointer: 0 }
    }

    /// The number of addresses on the stack.
    pub fn depth(&self) -> (d: usize)
        ensures
            d == self@.len(),
            d <= STACK_DEPTH,
    {
        proof {
            use_type_invariant(self);
        }
        self.pointer
    }

    /// Removes and returns the address pushed last. An empty stack is left
    /// as it is and `StackUnderflow` is reported.
    pub fn pop(&mut self) -> (r: Result<u16, Chip8Error>)
        ensures
            r == pop_result(old(self)@),
            final(self)@ == pop_spec(old(self)@),
            final(self)@.len() <= STACK_DEPTH,
    {
        proof {
            use_type_invariant(&*self);
        }
        if self.pointer == 0 {
            return Err(Chip8Error::StackUnderflow);
        }
        self.pointer -= 1;
        Ok(self.stack[self.pointer])
    }

    /// Pushes `v`. A full stack is left as it is and `StackOverflow` is
    /// reported.
    pub fn push(&mut self, v: u16) -> (r: Result<(), Chip8Error>)
        ensures
            r == push_result(old(self)@),
            final(self)@ == push_spec(old(self)@, v),
            final(self)@.len() <= STACK_DEPTH,
    {
        proof {
            use_type_invariant(&*self);
        }
        if self.pointer >= STACK_DEPTH {
            return Err(Chip8Error::StackOverflow);
        }
        self.stack[self.pointer] = v;
        self.pointer += 1;
        Ok(())
    }
}

} // verus!
