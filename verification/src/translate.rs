//! The per-opcode lowering rules: one decoded opcode in, an ordered
//! sequence of three-address-code instructions out, plus the two stack
//! protocol helpers every stack-consuming or stack-producing rule shares.

use vstd::prelude::*;

use crate::instruction::{Instruction, Operator};
use crate::symbol::{
    constant_symbol, global_symbol, temporary_symbol, Global, Symbol, SymbolTable, Type,
};
use crate::word::{be_value, lemma_spec_from_be_value, Word};

verus! {

/// The widest push literal a machine word can hold, in bytes.
pub const MAX_PUSH_BYTES: usize = 32;

/// One decoded opcode of the source stack machine that this stage can be
/// asked to lower.
#[derive(PartialEq, Debug)]
pub enum Opcode {
    /// A jump-destination marker: a pure position label.
    JumpDest,
    /// Push a literal, given big-endian as a byte string.
    Push(Vec<u8>),
    /// Pop and discard the top of the stack.
    Pop,
    /// Store a word to memory; pops the offset, then the value.
    MStore,
    /// Unconditional jump; pops the target.
    Jump,
    /// Return from execution; pops the offset, then the size.
    Return,
    /// Bulk copy of call-input data into memory; pops the destination
    /// offset, the source offset, then the size.
    CallDataCopy,
    /// Load one word of call-input data; pops the index, pushes the word.
    CallDataLoad,
    /// An opcode this stage has no lowering rule for, carrying its raw
    /// opcode byte.
    Unsupported(u8),
}

/// Why an opcode could not be lowered.
#[derive(Clone, Copy, PartialEq, Eq, Structural, Debug)]
pub enum TranslateError {
    /// The opcode has no lowering rule; carries the raw opcode byte.
    UnsupportedOpcode(u8),
    /// A push literal was wider than a machine word; carries the
    /// literal's length in bytes.
    PushLiteralTooWide(usize),
}

/// The constant `1`, typed as the 4-byte integer the stack-height counter
/// is counted in.
pub open spec fn one_int4_symbol() -> Symbol {
    constant_symbol(Word::spec_from_u64(1), Some(Type::Int(4)))
}

/// The height-decrement instruction: `StackHeight = StackHeight - 1`.
pub open spec fn decrement_instruction() -> Instruction {
    (Instruction::BinaryAssign {
        x: global_symbol(Global::StackHeight),
        y: global_symbol(Global::StackHeight),
        operator: Operator::Sub,
        z: one_int4_symbol(),
    })
}

/// The height-increment instruction: `StackHeight = StackHeight + 1`.
pub open spec fn increment_instruction() -> Instruction {
    (Instruction::BinaryAssign {
        x: global_symbol(Global::StackHeight),
        y: global_symbol(Global::StackHeight),
        operator: Operator::Add,
        z: one_int4_symbol(),
    })
}

/// The load half of the pop protocol: the temporary minted at `index`
/// receives the stack slot at the already-decremented height.
pub open spec fn stack_load_instruction(index: u64) -> Instruction {
    (Instruction::IndexedCopy {
        x: temporary_symbol(index, None),
        y: global_symbol(Global::Stack),
        index: global_symbol(Global::StackHeight),
    })
}

/// The store half of the push protocol: `value` goes into the stack slot
/// at the not-yet-incremented height, the next free slot.
pub open spec fn push_assign_instruction(value: Symbol) -> Instruction {
    (Instruction::IndexedAssign {
        x: global_symbol(Global::Stack),
        index: global_symbol(Global::StackHeight),
        y: value,
    })
}

/// The constant symbol a push literal is materialized as: its big-endian
/// value, typed by the literal's byte length.
pub open spec fn push_constant_symbol(bytes: Seq<u8>) -> Symbol {
    constant_symbol(Word::spec_from_be(bytes), Some(Type::Bytes(bytes.len() as usize)))
}

/// The two instructions of the pop protocol, plus (through
/// `load.target_address()`) a handle to the temporary holding the popped
/// value.
pub struct StackPop {
    pub decrement: Instruction,
    pub load: Instruction,
}

/// Pop a value from the abstract operand stack.
///
/// The height counter is decremented first, then the value is loaded by
/// indexing the stack at the post-decrement height — exactly the index of
/// the old top element — into a fresh temporary. Exactly two instructions
/// result.
pub fn stack_pop(symbol_table: &mut SymbolTable) -> (r: StackPop)
    requires
        old(symbol_table).temporaries_minted() < u64::MAX,
    ensures
        r.decrement == decrement_instruction(),
        r.load == stack_load_instruction(old(symbol_table).temporaries_minted()),
        final(symbol_table).temporaries_minted() == old(symbol_table).temporaries_minted() + 1,
{
    let decrement = decrement_stack_height(symbol_table);

    let load = Instruction::IndexedCopy {
        x: symbol_table.temporary(None),
        y: symbol_table.global(Global::Stack),
        index: symbol_table.global(Global::StackHeight),
    };

    StackPop { decrement, load }
}

/// Decrease the stack height by one.
fn decrement_stack_height(symbol_table: &mut SymbolTable) -> (r: Instruction)
    ensures
        r == decrement_instruction(),
        *final(symbol_table) == *old(symbol_table),
{
    Instruction::BinaryAssign {
        x: symbol_table.global(Global::StackHeight),
        y: symbol_table.global(Global::StackHeight),
        operator: Operator::Sub,
        z: symbol_table.constant(Word::from_u64(1), Some(Type::Int(4))),
    }
}

/// The two instructions of the push protocol.
pub struct StackPush {
    pub assign: Instruction,
    pub increment: Instruction,
}

/// Push `value` onto the abstract operand stack.
///
/// The value is stored first, at the pre-increment height — the next free
/// slot — then the height counter is incremented. Exactly two
/// instructions result.
pub fn stack_push(symbol_table: &mut SymbolTable, value: Symbol) -> (r: StackPush)
    ensures
        r.assign == push_assign_instruction(value),
        r.increment == increment_instruction(),
        *final(symbol_table) == *old(symbol_table),
{
    let assign = Instruction::IndexedAssign {
        x: symbol_table.global(Global::Stack),
        index: symbol_table.global(Global::StackHeight),
        y: value,
    };
    let increment = increment_stack_height(symbol_table);

    StackPush { assign, increment }
}

/// Increase the stack height by one.
fn increment_stack_height(symbol_table: &mut SymbolTable) -> (r: Instruction)
    ensures
        r == increment_instruction(),
        *final(symbol_table) == *old(symbol_table),
{
    Instruction::BinaryAssign {
        x: symbol_table.global(Global::StackHeight),
        y: symbol_table.global(Global::StackHeight),
        operator: Operator::Add,
        z: symbol_table.constant(Word::from_u64(1), Some(Type::Int(4))),
    }
}

/// What `translate` returns and does to the table, for every opcode: the
/// exact instruction sequence of each lowering rule, the exact error for
/// each rejected input, and how many temporaries were minted.
pub open spec fn translate_post(
    opcode: Opcode,
    old_table: SymbolTable,
    new_table: SymbolTable,
    r: Result<Vec<Instruction>, TranslateError>,
) -> bool {
    let c = old_table.temporaries_minted();
    match opcode {
        Opcode::JumpDest => {
            &&& r matches Ok(v)
            &&& v@ == Seq::<Instruction>::empty()
            &&& new_table == old_table
        },
        Opcode::Push(bytes) => {
            if bytes@.len() > MAX_PUSH_BYTES {
                &&& r matches Err(e)
                &&& e == TranslateError::PushLiteralTooWide(bytes@.len() as usize)
                &&& new_table == old_table
            } else {
                &&& r matches Ok(v)
                &&& v@ == seq![
                    push_assign_instruction(push_constant_symbol(bytes@)),
                    increment_instruction(),
                ]
                &&& Word::spec_from_be(bytes@).as_nat() == be_value(bytes@)
                &&& new_table == old_table
            }
        },
        Opcode::Pop => {
            &&& r matches Ok(v)
            &&& v@ == seq![decrement_instruction()]
            &&& new_table == old_table
        },
        Opcode::MStore => {
            &&& r matches Ok(v)
            &&& v@ == seq![
                decrement_instruction(),
                stack_load_instruction(c),
                decrement_instruction(),
                stack_load_instruction((c + 1) as u64),
                (Instruction::IndexedAssign {
                    x: global_symbol(Global::Memory),
                    index: temporary_symbol(c, None),
                    y: temporary_symbol((c + 1) as u64, None),
                }),
            ]
            &&& new_table.temporaries_minted() == c + 2
        },
        Opcode::Jump => {
            &&& r matches Ok(v)
            &&& v@ == seq![
                decrement_instruction(),
                stack_load_instruction(c),
                (Instruction::UncoditionalBranch { target: temporary_symbol(c, None) }),
            ]
            &&& new_table.temporaries_minted() == c + 1
        },
        Opcode::Return => {
            &&& r matches Ok(v)
            &&& v@.len() == 5
            &&& v@[0] == decrement_instruction()
            &&& v@[1] == stack_load_instruction(c)
            &&& v@[2] == decrement_instruction()
            &&& v@[3] == stack_load_instruction((c + 1) as u64)
            &&& v@[4] matches Instruction::Procedure { symbol, parameters }
            &&& symbol == Global::Return
            &&& parameters@ == seq![
                temporary_symbol(c, None),
                temporary_symbol((c + 1) as u64, None),
            ]
            &&& new_table.temporaries_minted() == c + 2
        },
        Opcode::CallDataCopy => {
            &&& r matches Ok(v)
            &&& v@.len() == 7
            &&& v@[0] == decrement_instruction()
            &&& v@[1] == stack_load_instruction(c)
            &&& v@[2] == decrement_instruction()
            &&& v@[3] == stack_load_instruction((c + 1) as u64)
            &&& v@[4] == decrement_instruction()
            &&& v@[5] == stack_load_instruction((c + 2) as u64)
            &&& v@[6] matches Instruction::Procedure { symbol, parameters }
            &&& symbol == Global::MemoryCopy
            &&& parameters@ == seq![
                temporary_symbol(c, None),
                temporary_symbol((c + 1) as u64, None),
                temporary_symbol((c + 2) as u64, None),
            ]
            &&& new_table.temporaries_minted() == c + 3
        },
        Opcode::CallDataLoad => {
            &&& r matches Ok(v)
            &&& v@ == seq![
                decrement_instruction(),
                stack_load_instruction(c),
                (Instruction::IndexedCopy {
                    x: temporary_symbol((c + 1) as u64, None),
                    y: global_symbol(Global::CallData),
                    index: temporary_symbol(c, None),
                }),
                push_assign_instruction(temporary_symbol((c + 1) as u64, None)),
                increment_instruction(),
            ]
            &&& new_table.temporaries_minted() == c + 2
        },
        Opcode::Unsupported(b) => {
            &&& r matches Err(e)
            &&& e == TranslateError::UnsupportedOpcode(b)
            &&& new_table == old_table
        },
    }
}

/// Lower one decoded opcode into the ordered three-address-code sequence
/// that reproduces its effect, minting constants and temporaries through
/// the symbol table.
///
/// Operand evaluation order is preserved: where an opcode pops several
/// values, the emitted sequence pops them in the opcode's literal order.
/// An opcode without a lowering rule, or a push literal wider than a
/// machine word, is reported explicitly rather than dropped.
pub fn translate(opcode: &Opcode, symbol_table: &mut SymbolTable) -> (r: Result<
    Vec<Instruction>,
    TranslateError,
>)
    requires
        old(symbol_table).temporaries_minted() <= u64::MAX - 3,
    ensures
        translate_post(*opcode, *old(symbol_table), *final(symbol_table), r),
{
    match opcode {
        Opcode::JumpDest => Ok(Vec::new()),

        Opcode::Push(bytes) => {
            if bytes.len() > MAX_PUSH_BYTES {
                Err(TranslateError::PushLiteralTooWide(bytes.len()))
            } else {
                let type_hint = Some(Type::Bytes(bytes.len()));
                let value = symbol_table.constant(
                    Word::from_big_endian(bytes.as_slice()),
                    type_hint,
                );
                let push = stack_push(symbol_table, value);
                let result = vec![push.assign, push.increment];
                proof {
                    lemma_spec_from_be_value(bytes@);
                    assert(result@ =~= seq![
                        push_assign_instruction(push_constant_symbol(bytes@)),
                        increment_instruction(),
                    ]);
                }
                Ok(result)
            }
        },

        Opcode::Pop => {
            let result = vec![decrement_stack_height(symbol_table)];
            proof {
                assert(result@ =~= seq![decrement_instruction()]);
            }
            Ok(result)
        },

        Opcode::MStore => {
            let offset = stack_pop(symbol_table);
            let value = stack_pop(symbol_table);

            let store = Instruction::IndexedAssign {
                x: symbol_table.global(Global::Memory),
                index: offset.load.target_address(),
                y: value.load.target_address(),
            };

            let result = vec![offset.decrement, offset.load, value.decrement, value.load, store];
            proof {
                let c = old(symbol_table).temporaries_minted();
                assert(result@ =~= seq![
                    decrement_instruction(),
                    stack_load_instruction(c),
                    decrement_instruction(),
                    stack_load_instruction((c + 1) as u64),
                    (Instruction::IndexedAssign {
                        x: global_symbol(Global::Memory),
                        index: temporary_symbol(c, None),
                        y: temporary_symbol((c + 1) as u64, None),
                    }),
                ]);
            }
            Ok(result)
        },

        Opcode::Jump => {
            let target = stack_pop(symbol_table);

            let jump = Instruction::UncoditionalBranch { target: target.load.target_address() };

            let result = vec![target.decrement, target.load, jump];
            proof {
                let c = old(symbol_table).temporaries_minted();
                assert(result@ =~= seq![
                    decrement_instruction(),
                    stack_load_instruction(c),
                    (Instruction::UncoditionalBranch { target: temporary_symbol(c, None) }),
                ]);
            }
            Ok(result)
        },

        Opcode::Return => {
            let offset = stack_pop(symbol_table);
            let size = stack_pop(symbol_table);

            let parameters = vec![offset.load.target_address(), size.load.target_address()];
            proof {
                let c = old(symbol_table).temporaries_minted();
                assert(parameters@ =~= seq![
                    temporary_symbol(c, None),
                    temporary_symbol((c + 1) as u64, None),
                ]);
            }
            let procedure = Instruction::Procedure { symbol: Global::Return, parameters };

            Ok(vec![offset.decrement, offset.load, size.decrement, size.load, procedure])
        },

        Opcode::CallDataCopy => {
            let destination_offset = stack_pop(symbol_table);
            let offset = stack_pop(symbol_table);
            let size = stack_pop(symbol_table);

            let parameters = vec![
                destination_offset.load.target_address(),
                offset.load.target_address(),
                size.load.target_address(),
            ];
            proof {
                let c = old(symbol_table).temporaries_minted();
                assert(parameters@ =~= seq![
                    temporary_symbol(c, None),
                    temporary_symbol((c + 1) as u64, None),
                    temporary_symbol((c + 2) as u64, None),
                ]);
            }
            let procedure = Instruction::Procedure { symbol: Global::MemoryCopy, parameters };

            Ok(
                vec![
                    destination_offset.decrement,
                    destination_offset.load,
                    offset.decrement,
                    offset.load,
                    size.decrement,
                    size.load,
                    procedure,
                ],
            )
        },

        Opcode::CallDataLoad => {
            let index = stack_pop(symbol_table);

            let value = Instruction::IndexedCopy {
                x: symbol_table.temporary(None),
                y: symbol_table.global(Global::CallData),
                index: index.load.target_address(),
            };

            let push = stack_push(symbol_table, value.target_address());

            let result = vec![index.decrement, index.load, value, push.assign, push.increment];
            proof {
                let c = old(symbol_table).temporaries_minted();
                assert(result@ =~= seq![
                    decrement_instruction(),
                    stack_load_instruction(c),
                    (Instruction::IndexedCopy {
                        x: temporary_symbol((c + 1) as u64, None),
                        y: global_symbol(Global::CallData),
                        index: temporary_symbol(c, None),
                    }),
                    push_assign_instruction(temporary_symbol((c + 1) as u64, None)),
                    increment_instruction(),
                ]);
            }
            Ok(result)
        },

        Opcode::Unsupported(b) => Err(TranslateError::UnsupportedOpcode(*b)),
    }
}

} // verus!
