//! Canonical text rendering of symbols and instructions, for diagnostics
//! and snapshot-style assertions. The rendering of a value is a pure
//! function of that value, so it is deterministic by contract: every
//! render is pinned to the spec-level text of the value rendered.

use vstd::prelude::*;
use vstd::string::StringExecFns;

use crate::instruction::{Instruction, Operator};
use crate::symbol::{Address, Global, Symbol};

verus! {

/// The character of one hexadecimal digit (also used for decimal digits).
pub open spec fn spec_hex_char(d: nat) -> char {
    if d == 0 {
        '0'
    } else if d == 1 {
        '1'
    } else if d == 2 {
        '2'
    } else if d == 3 {
        '3'
    } else if d == 4 {
        '4'
    } else if d == 5 {
        '5'
    } else if d == 6 {
        '6'
    } else if d == 7 {
        '7'
    } else if d == 8 {
        '8'
    } else if d == 9 {
        '9'
    } else if d == 10 {
        'a'
    } else if d == 11 {
        'b'
    } else if d == 12 {
        'c'
    } else if d == 13 {
        'd'
    } else if d == 14 {
        'e'
    } else {
        'f'
    }
}

/// A 64-bit limb as 16 hexadecimal digits, most significant first.
pub open spec fn spec_hex_limb(l: u64) -> Seq<char> {
    Seq::new(16, |i: int| spec_hex_char((((l >> (((15 - i) as u64) * 4)) & 0xF) as nat)))
}

/// An unsigned number in decimal, without leading zeros.
pub open spec fn spec_decimal(n: nat) -> Seq<char>
    decreases n,
{
    if n < 10 {
        seq![spec_hex_char(n)]
    } else {
        spec_decimal(n / 10) + seq![spec_hex_char(n % 10)]
    }
}

/// The name of a global resource.
pub open spec fn spec_global_text(g: Global) -> Seq<char> {
    match g {
        Global::Stack => "Stack"@,
        Global::StackHeight => "StackHeight"@,
        Global::Memory => "Memory"@,
        Global::CallData => "CallData"@,
        Global::Return => "Return"@,
        Global::MemoryCopy => "MemoryCopy"@,
    }
}

/// The name of an operator.
pub open spec fn spec_operator_text(op: Operator) -> Seq<char> {
    match op {
        Operator::Add => "Add"@,
        Operator::Mul => "Mul"@,
        Operator::Sub => "Sub"@,
        Operator::Div => "Div"@,
        Operator::SDiv => "SDiv"@,
        Operator::Mod => "Mod"@,
        Operator::SMod => "SMod"@,
        Operator::AddMod => "AddMod"@,
        Operator::MulMod => "MulMod"@,
        Operator::Exp => "Exp"@,
        Operator::SignExtend => "SignExtend"@,
        Operator::LessThat => "LessThat"@,
        Operator::GreaterThan => "GreaterThan"@,
        Operator::SignedLessThan => "SignedLessThan"@,
        Operator::SignedGreaterThan => "SignedGreaterThan"@,
        Operator::Eq => "Eq"@,
        Operator::IsZero => "IsZero"@,
        Operator::And => "And"@,
        Operator::Or => "Or"@,
        Operator::Xor => "Xor"@,
        Operator::Not => "Not"@,
        Operator::Byte => "Byte"@,
        Operator::ShiftLeft => "ShiftLeft"@,
        Operator::ShiftRight => "ShiftRight"@,
        Operator::ShiftArithmeticRight => "ShiftArithmeticRight"@,
    }
}

/// The text of one symbol: a global by its name, a constant as a full
/// 64-digit hexadecimal word, a temporary as `t` and its mint index.
pub open spec fn spec_symbol_text(s: Symbol) -> Seq<char> {
    match s.address {
        Address::Label(g) => spec_global_text(g),
        Address::Constant(w) => "0x"@ + spec_hex_limb(w.limb3) + spec_hex_limb(w.limb2)
            + spec_hex_limb(w.limb1) + spec_hex_limb(w.limb0),
        Address::Temporary(i) => "t"@ + spec_decimal(i as nat),
    }
}

/// The text of a call's parameter list: each parameter followed by a
/// comma and a space.
pub open spec fn spec_parameters_text(ps: Seq<Symbol>) -> Seq<char>
    decreases ps.len(),
{
    if ps.len() == 0 {
        Seq::<char>::empty()
    } else {
        spec_parameters_text(ps.drop_last()) + spec_symbol_text(ps.last()) + ", "@
    }
}

/// The canonical text of one instruction.
pub open spec fn spec_instruction_text(ins: Instruction) -> Seq<char> {
    match ins {
        Instruction::BinaryAssign { x, y, operator, z } => spec_symbol_text(x) + " = "@
            + spec_symbol_text(y) + " "@ + spec_operator_text(operator) + " "@
            + spec_symbol_text(z),
        Instruction::UnaryAssign { x, operator, y } => spec_symbol_text(x) + " = "@
            + spec_operator_text(operator) + " "@ + spec_symbol_text(y),
        Instruction::UncoditionalBranch { target } => "branch "@ + spec_symbol_text(target),
        Instruction::ConditionalBranch { condition, target } => "if "@ + spec_symbol_text(
            condition,
        ) + " branch "@ + spec_symbol_text(target),
        Instruction::Procedure { symbol, parameters } => spec_global_text(symbol) + "("@
            + spec_parameters_text(parameters@) + ")"@,
        Instruction::Function { symbol, x, parameters } => spec_symbol_text(x) + " = "@
            + spec_global_text(symbol) + "("@ + spec_parameters_text(parameters@) + ")"@,
        Instruction::Copy { x, y } => spec_symbol_text(x) + " = "@ + spec_symbol_text(y),
        Instruction::IndexedAssign { x, index, y } => spec_symbol_text(x) + "["@
            + spec_symbol_text(index) + "] = "@ + spec_symbol_text(y),
        Instruction::IndexedCopy { x, y, index } => spec_symbol_text(x) + " = "@
            + spec_symbol_text(y) + "["@ + spec_symbol_text(index) + "]"@,
    }
}

/// One digit as a string slice.
fn hex_digit_str(d: u64) -> (r: &'static str)
    requires
        d < 16,
    ensures
        r@ == seq![spec_hex_char(d as nat)],
{
    if d == 0 {
        proof {
            reveal_strlit("0");
            assert("0"@ =~= seq![spec_hex_char(0)]);
        }
        "0"
    } else if d == 1 {
        proof {
            reveal_strlit("1");
            assert("1"@ =~= seq![spec_hex_char(1)]);
        }
        "1"
    } else if d == 2 {
        proof {
            reveal_strlit("2");
            assert("2"@ =~= seq![spec_hex_char(2)]);
        }
        "2"
    } else if d == 3 {
        proof {
            reveal_strlit("3");
            assert("3"@ =~= seq![spec_hex_char(3)]);
        }
        "3"
    } else if d == 4 {
        proof {
            reveal_strlit("4");
            assert("4"@ =~= seq![spec_hex_char(4)]);
        }
        "4"
    } else if d == 5 {
        proof {
            reveal_strlit("5");
            assert("5"@ =~= seq![spec_hex_char(5)]);
        }
        "5"
    } else if d == 6 {
        proof {
            reveal_strlit("6");
            assert("6"@ =~= seq![spec_hex_char(6)]);
        }
        "6"
    } else if d == 7 {
        proof {
            reveal_strlit("7");
            assert("7"@ =~= seq![spec_hex_char(7)]);
        }
        "7"
    } else if d == 8 {
        proof {
            reveal_strlit("8");
            assert("8"@ =~= seq![spec_hex_char(8)]);
        }
        "8"
    } else if d == 9 {
        proof {
            reveal_strlit("9");
            assert("9"@ =~= seq![spec_hex_char(9)]);
        }
        "9"
    } else if d == 10 {
        proof {
            reveal_strlit("a");
            assert("a"@ =~= seq![spec_hex_char(10)]);
        }
        "a"
    } else if d == 11 {
        proof {
            reveal_strlit("b");
            assert("b"@ =~= seq![spec_hex_char(11)]);
        }
        "b"
    } else if d == 12 {
        proof {
            reveal_strlit("c");
            assert("c"@ =~= seq![spec_hex_char(12)]);
        }
        "c"
    } else if d == 13 {
        proof {
            reveal_strlit("d");
            assert("d"@ =~= seq![spec_hex_char(13)]);
        }
        "d"
    } else if d == 14 {
        proof {
            reveal_strlit("e");
            assert("e"@ =~= seq![spec_hex_char(14)]);
        }
        "e"
    } else {
        proof {
            reveal_strlit("f");
            assert("f"@ =~= seq![spec_hex_char(15)]);
        }
        "f"
    }
}

/// One 64-bit limb as 16 hexadecimal digits.
fn hex_limb_string(l: u64) -> (r: String)
    ensures
        r@ == spec_hex_limb(l),
{
    let mut s = String::new();
    let mut i: usize = 0;
    while i < 16
        invariant
            i <= 16,
            s@ == spec_hex_limb(l).take(i as int),
        decreases 16 - i,
    {
        let sh: u64 = (15 - i as u64) * 4;
        let d: u64 = (l >> sh) & 0xF;
        proof {
            assert((l >> sh) & 0xF < 16) by (bit_vector);
            assert(sh == ((15 - i as int) as u64) * 4);
        }
        s.append(hex_digit_str(d));
        proof {
            assert(spec_hex_limb(l).take(i as int + 1) =~= spec_hex_limb(l).take(i as int)
                + seq![spec_hex_char(d as nat)]);
        }
        i += 1;
    }
    proof {
        assert(spec_hex_limb(l).take(16) =~= spec_hex_limb(l));
    }
    s
}

/// An unsigned number in decimal.
fn decimal_string(n: u64) -> (r: String)
    ensures
        r@ == spec_decimal(n as nat),
    decreases n,
{
    if n < 10 {
        let mut s = String::new();
        s.append(hex_digit_str(n));
        s
    } else {
        let mut s = decimal_string(n / 10);
        s.append(hex_digit_str(n % 10));
        s
    }
}

/// The name of a global resource.
fn global_text(g: Global) -> (r: &'static str)
    ensures
        r@ == spec_global_text(g),
{
    match g {
        Global::Stack => "Stack",
        Global::StackHeight => "StackHeight",
        Global::Memory => "Memory",
        Global::CallData => "CallData",
        Global::Return => "Return",
        Global::MemoryCopy => "MemoryCopy",
    }
}

/// The name of an operator.
fn operator_text(op: Operator) -> (r: &'static str)
    ensures
        r@ == spec_operator_text(op),
{
    match op {
        Operator::Add => "Add",
        Operator::Mul => "Mul",
        Operator::Sub => "Sub",
        Operator::Div => "Div",
        Operator::SDiv => "SDiv",
        Operator::Mod => "Mod",
        Operator::SMod => "SMod",
        Operator::AddMod => "AddMod",
        Operator::MulMod => "MulMod",
        Operator::Exp => "Exp",
        Operator::SignExtend => "SignExtend",
        Operator::LessThat => "LessThat",
        Operator::GreaterThan => "GreaterThan",
        Operator::SignedLessThan => "SignedLessThan",
        Operator::SignedGreaterThan => "SignedGreaterThan",
        Operator::Eq => "Eq",
        Operator::IsZero => "IsZero",
        Operator::And => "And",
        Operator::Or => "Or",
        Operator::Xor => "Xor",
        Operator::Not => "Not",
        Operator::Byte => "Byte",
        Operator::ShiftLeft => "ShiftLeft",
        Operator::ShiftRight => "ShiftRight",
        Operator::ShiftArithmeticRight => "ShiftArithmeticRight",
    }
}

/// Append the text of one symbol to `out`.
fn append_symbol(out: &mut String, sym: &Symbol)
    ensures
        final(out)@ == old(out)@ + spec_symbol_text(*sym),
{
    match &sym.address {
        Address::Label(g) => {
            out.append(global_text(*g));
        },
        Address::Constant(w) => {
            let h3 = hex_limb_string(w.limb3);
            let h2 = hex_limb_string(w.limb2);
            let h1 = hex_limb_string(w.limb1);
            let h0 = hex_limb_string(w.limb0);
            out.append("0x");
            out.append(h3.as_str());
            out.append(h2.as_str());
            out.append(h1.as_str());
            out.append(h0.as_str());
            proof {
                assert(out@ =~= old(out)@ + ("0x"@ + spec_hex_limb(w.limb3) + spec_hex_limb(
                    w.limb2,
                ) + spec_hex_limb(w.limb1) + spec_hex_limb(w.limb0)));
            }
        },
        Address::Temporary(i) => {
            let digits = decimal_string(*i);
            out.append("t");
            out.append(digits.as_str());
            proof {
                assert(out@ =~= old(out)@ + ("t"@ + spec_decimal(*i as nat)));
            }
        },
    }
}

impl Symbol {
    /// The canonical text of this symbol. The result is a pure function
    /// of the symbol, so any two renderings of equal symbols are equal.
    pub fn render(&self) -> (r: String)
        ensures
            r@ == spec_symbol_text(*self),
    {
        let mut s = String::new();
        append_symbol(&mut s, self);
        s
    }
}

/// Append the text of a call's parameter list to `out`.
fn append_parameters(out: &mut String, parameters: &Vec<Symbol>)
    ensures
        final(out)@ == old(out)@ + spec_parameters_text(parameters@),
{
    let mut i: usize = 0;
    while i < parameters.len()
        invariant
            i <= parameters@.len(),
            out@ == old(out)@ + spec_parameters_text(parameters@.take(i as int)),
        decreases parameters@.len() - i,
    {
        append_symbol(out, &parameters[i]);
        out.append(", ");
        proof {
            assert(parameters@.take(i as int + 1).drop_last() =~= parameters@.take(i as int));
            assert(out@ =~= old(out)@ + spec_parameters_text(parameters@.take(i as int + 1)));
        }
        i += 1;
    }
    proof {
        assert(parameters@.take(parameters@.len() as int) =~= parameters@);
    }
}

impl Instruction {
    /// The canonical, deterministic text of this instruction, stable for
    /// a fixed instruction value: the result is pinned to the spec-level
    /// text, so equal instructions always render to equal strings.
    pub fn render(&self) -> (r: String)
        ensures
            r@ == spec_instruction_text(*self),
    {
        let mut s = String::new();
        match self {
            Instruction::BinaryAssign { x, y, operator, z } => {
                append_symbol(&mut s, x);
                s.append(" = ");
                append_symbol(&mut s, y);
                s.append(" ");
                s.append(operator_text(*operator));
                s.append(" ");
                append_symbol(&mut s, z);
                proof {
                    assert(s@ =~= spec_instruction_text(*self));
                }
            },
            Instruction::UnaryAssign { x, operator, y } => {
                append_symbol(&mut s, x);
                s.append(" = ");
                s.append(operator_text(*operator));
                s.append(" ");
                append_symbol(&mut s, y);
                proof {
                    assert(s@ =~= spec_instruction_text(*self));
                }
            },
            Instruction::UncoditionalBranch { target } => {
                s.append("branch ");
                append_symbol(&mut s, target);
                proof {
                    assert(s@ =~= spec_instruction_text(*self));
                }
            },
            Instruction::ConditionalBranch { condition, target } => {
                s.append("if ");
                append_symbol(&mut s, condition);
                s.append(" branch ");
                append_symbol(&mut s, target);
                proof {
                    assert(s@ =~= spec_instruction_text(*self));
                }
            },
            Instruction::Procedure { symbol, parameters } => {
                s.append(global_text(*symbol));
                s.append("(");
                append_parameters(&mut s, parameters);
                s.append(")");
                proof {
                    assert(s@ =~= spec_instruction_text(*self));
                }
            },
            Instruction::Function { symbol, x, parameters } => {
                append_symbol(&mut s, x);
                s.append(" = ");
                s.append(global_text(*symbol));
                s.append("(");
                append_parameters(&mut s, parameters);
                s.append(")");
                proof {
                    assert(s@ =~= spec_instruction_text(*self));
                }
            },
            Instruction::Copy { x, y } => {
                append_symbol(&mut s, x);
                s.append(" = ");
                append_symbol(&mut s, y);
                proof {
                    assert(s@ =~= spec_instruction_text(*self));
                }
            },
            Instruction::IndexedAssign { x, index, y } => {
                append_symbol(&mut s, x);
                s.append("[");
                append_symbol(&mut s, index);
                s.append("] = ");
                append_symbol(&mut s, y);
                proof {
                    assert(s@ =~= spec_instruction_text(*self));
                }
            },
            Instruction::IndexedCopy { x, y, index } => {
                append_symbol(&mut s, x);
                s.append(" = ");
                append_symbol(&mut s, y);
                s.append("[");
                append_symbol(&mut s, index);
                s.append("]");
                proof {
                    assert(s@ =~= spec_instruction_text(*self));
                }
            },
        }
        s
    }
}

} // verus!
