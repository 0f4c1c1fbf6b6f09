//! The operand stack and the engine's fatal error.

use vstd::prelude::*;

verus! {

/// The value that popping an empty stack of cells yields.
pub open spec fn top_or_zero(s: Seq<i32>) -> i32 {
    if s.len() > 0 {
        s.last()
    } else {
        0
    }
}

/// The stack of cells left after a pop: unchanged when it was empty.
pub open spec fn below_top(s: Seq<i32>) -> Seq<i32> {
    if s.len() > 0 {
        s.drop_last()
    } else {
        s
    }
}

/// A last-in-first-out stack whose pop never fails: an empty stack yields a
/// fixed default value and stays empty.
pub trait FungeStack<T>: Sized {
    /// The values on the stack, bottom first.
    spec fn contents(&self) -> Seq<T>;

    /// What a pop of an empty stack yields.
    spec fn underflow_value() -> T;

    fn push(&mut self, value: T)
        ensures
            final(self).contents() == old(self).contents().push(value),
    ;

    fn pop(&mut self) -> (r: T)
        ensures
            old(self).contents().len() == 0 ==> r == Self::underflow_value(),
            old(self).contents().len() == 0 ==> final(self).contents() == old(self).contents(),
            old(self).contents().len() > 0 ==> r == old(self).contents().last(),
            old(self).contents().len() > 0 ==> final(self).contents() == old(self).contents().drop_last(),
    ;
}

impl FungeStack<i32> for Vec<i32> {
    open spec fn contents(&self) -> Seq<i32> {
        self@
    }

    open spec fn underflow_value() -> i32 {
        0
    }

    fn push(&mut self, value: i32) {
        self.push(value);
    }

    fn pop(&mut self) -> (r: i32) {
        match self.pop() {
            Some(v) => v,
            None => 0,
        }
    }
}

/// A fatal condition of the engine: the instruction `opcode` at `(x, y)`
/// divided by zero or took a remainder modulo zero.
#[derive(Clone, Copy, Debug, PartialEq, Eq, Structural)]
pub struct FungeError {
    pub opcode: i32,
    pub x: usize,
    pub y: usize,
}

} // verus!
