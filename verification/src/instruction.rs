//! The closed three-address-code instruction and operator model. Every
//! operand slot holds a [`Symbol`]; literals are threaded through the
//! symbol table first.

use vstd::prelude::*;

use crate::symbol::{Global, Symbol};

verus! {

/// One three-address-code operation.
#[derive(PartialEq, Debug)]
pub enum Instruction {
    /// `x = y op z`
    BinaryAssign { x: Symbol, y: Symbol, operator: Operator, z: Symbol },
    /// `x = op y`
    UnaryAssign { x: Symbol, operator: Operator, y: Symbol },
    /// `branch target`
    UncoditionalBranch { target: Symbol },
    /// `if condition branch target`
    ConditionalBranch { condition: Symbol, target: Symbol },
    /// A void procedure call: `symbol(parameters...)`
    Procedure { symbol: Global, parameters: Vec<Symbol> },
    /// A value-returning call: `x = symbol(parameters...)`
    Function { symbol: Global, x: Symbol, parameters: Vec<Symbol> },
    /// `x = y`
    Copy { x: Symbol, y: Symbol },
    /// `x[index] = y`
    IndexedAssign { x: Symbol, index: Symbol, y: Symbol },
    /// `x = y[index]`
    IndexedCopy { x: Symbol, y: Symbol, index: Symbol },
}

/// The closed set of arithmetic, comparison, bitwise, and shift operators.
/// Signed and unsigned variants are distinct operators.
#[derive(Clone, Copy, PartialEq, Eq, Structural, Debug)]
pub enum Operator {
    Add,
    Mul,
    Sub,
    Div,
    SDiv,
    Mod,
    SMod,
    AddMod,
    MulMod,
    Exp,
    SignExtend,
    LessThat,
    GreaterThan,
    SignedLessThan,
    SignedGreaterThan,
    Eq,
    IsZero,
    And,
    Or,
    Xor,
    Not,
    Byte,
    ShiftLeft,
    ShiftRight,
    ShiftArithmeticRight,
}

impl Instruction {
    /// The single assignment target of this instruction, where it has one:
    /// only a plain copy, an indexed store, and an indexed load do.
    pub open spec fn target_symbol(self) -> Option<Symbol> {
        match self {
            Instruction::Copy { x, .. } => Some(x),
            Instruction::IndexedAssign { x, .. } => Some(x),
            Instruction::IndexedCopy { x, .. } => Some(x),
            _ => None,
        }
    }

    /// The assigned target symbol. Defined only for the instruction
    /// shapes that have a single assignment target; the precondition
    /// makes the other shapes uncallable, so a violation is a bug in the
    /// caller, never a recoverable condition.
    pub fn target_address(&self) -> (r: Symbol)
        requires
            self.target_symbol() is Some,
        ensures
            Some(r) == self.target_symbol(),
    {
        match self {
            Instruction::Copy { x, .. } => *x,
            Instruction::IndexedAssign { x, .. } => *x,
            Instruction::IndexedCopy { x, .. } => *x,
            _ => vstd::pervasive::unreached(),
        }
    }
}

} // verus!
