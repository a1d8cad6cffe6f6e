use crate::parser::expression::ConstantExpressionValue;
use vstd::prelude::*;

verus! {

/// One straight-line backend instruction, as the generator emits it.
/// A value handle is the index of the instruction that produced the value.
#[derive(Clone, Copy, Debug, PartialEq, Eq, Structural)]
pub enum Instruction {
    /// Materializes a 64-bit integer constant.
    ConstInt { dest: usize, literal: ConstantExpressionValue },
    /// Integer addition.
    Add { dest: usize, lhs: usize, rhs: usize },
    /// Integer subtraction.
    Sub { dest: usize, lhs: usize, rhs: usize },
    /// Integer multiplication.
    Mul { dest: usize, lhs: usize, rhs: usize },
    /// Signed less-than-or-equal comparison.
    CmpSignedLessEqual { dest: usize, lhs: usize, rhs: usize },
    /// Return carrying a value.
    Return { value: usize },
    /// Return without a value.
    ReturnVoid,
}

/// The straight-line instruction sink of one generation run. Every emitted
/// instruction gets the next index as its destination handle, so handles
/// and instruction positions coincide.
#[derive(Debug)]
pub struct Builder {
    pub instructions: Vec<Instruction>,
}

impl View for Builder {
    type V = Seq<Instruction>;

    open spec fn view(&self) -> Seq<Instruction> {
        self.instructions@
    }
}

impl Builder {
    /// An empty instruction sink.
    pub fn new() -> (r: Self)
        ensures
            r@ == Seq::<Instruction>::empty(),
    {
        Self { instructions: Vec::new() }
    }

    /// The instructions emitted so far, in order.
    pub fn instructions(&self) -> (r: &Vec<Instruction>)
        ensures
            r@ == self@,
    {
        &self.instructions
    }
}

} // verus!
