use ir_tac::instruction::{Instruction, Operator};
use ir_tac::symbol::{Address, Global, Kind, Symbol, SymbolTable, Type};
use ir_tac::translate::{translate, Opcode, TranslateError};
use ir_tac::word::Word;

fn stack() -> Symbol {
    Symbol {
        address: Address::Label(Global::Stack),
        type_hint: Type::Word,
        kind: Global::Stack.kind(),
    }
}

fn stack_height() -> Symbol {
    Symbol {
        address: Address::Label(Global::StackHeight),
        type_hint: Type::Int(4),
        kind: Global::StackHeight.kind(),
    }
}

fn one_int4() -> Symbol {
    Symbol {
        address: Address::Constant(Word::from_u64(1)),
        type_hint: Type::Int(4),
        kind: Kind::Value,
    }
}

fn temporary(index: u64) -> Symbol {
    Symbol {
        address: Address::Temporary(index),
        type_hint: Type::Word,
        kind: Kind::Value,
    }
}

fn decrement() -> Instruction {
    Instruction::BinaryAssign {
        x: stack_height(),
        y: stack_height(),
        operator: Operator::Sub,
        z: one_int4(),
    }
}

fn increment() -> Instruction {
    Instruction::BinaryAssign {
        x: stack_height(),
        y: stack_height(),
        operator: Operator::Add,
        z: one_int4(),
    }
}

fn load(index: u64) -> Instruction {
    Instruction::IndexedCopy {
        x: temporary(index),
        y: stack(),
        index: stack_height(),
    }
}

#[test]
fn lower_push_works() {
    let mut symbol_table = SymbolTable::default();

    let opcode = Opcode::Push(vec![0x01]);
    let result = translate(&opcode, &mut symbol_table).unwrap();

    let expected = vec![
        Instruction::IndexedAssign {
            x: Symbol {
                address: Address::Label(Global::Stack),
                type_hint: Type::Word,
                kind: Global::Stack.kind(),
            },
            index: Symbol {
                address: Address::Label(Global::StackHeight),
                type_hint: Type::Int(4),
                kind: Global::StackHeight.kind(),
            },
            y: Symbol {
                address: Address::Constant(Word::from_u64(1)),
                type_hint: Type::Bytes(1),
                kind: Kind::Value,
            },
        },
        Instruction::BinaryAssign {
            x: Symbol {
                address: Address::Label(Global::StackHeight),
                type_hint: Type::Int(4),
                kind: Global::StackHeight.kind(),
            },
            y: Symbol {
                address: Address::Label(Global::StackHeight),
                type_hint: Type::Int(4),
                kind: Global::StackHeight.kind(),
            },
            operator: Operator::Add,
            z: Symbol {
                address: Address::Constant(Word::from_u64(1)),
                type_hint: Type::Int(4),
                kind: Kind::Value,
            },
        },
    ];

    assert_eq!(expected, result);
}

#[test]
fn lower_pop_decrements_only() {
    let mut symbol_table = SymbolTable::new();
    let result = translate(&Opcode::Pop, &mut symbol_table).unwrap();
    assert_eq!(vec![decrement()], result);
}

#[test]
fn lower_jumpdest_is_empty() {
    let mut symbol_table = SymbolTable::new();
    let result = translate(&Opcode::JumpDest, &mut symbol_table).unwrap();
    assert!(result.is_empty());
}

#[test]
fn lower_mstore_pops_offset_then_value() {
    let mut symbol_table = SymbolTable::new();
    let result = translate(&Opcode::MStore, &mut symbol_table).unwrap();

    let expected = vec![
        decrement(),
        load(0),
        decrement(),
        load(1),
        Instruction::IndexedAssign {
            x: Symbol {
                address: Address::Label(Global::Memory),
                type_hint: Type::Word,
                kind: Global::Memory.kind(),
            },
            index: temporary(0),
            y: temporary(1),
        },
    ];
    assert_eq!(expected, result);
}

#[test]
fn lower_jump_branches_to_popped_target() {
    let mut symbol_table = SymbolTable::new();
    let result = translate(&Opcode::Jump, &mut symbol_table).unwrap();

    let expected = vec![
        decrement(),
        load(0),
        Instruction::UncoditionalBranch { target: temporary(0) },
    ];
    assert_eq!(expected, result);
}

#[test]
fn lower_return_calls_with_offset_then_size() {
    let mut symbol_table = SymbolTable::new();
    let result = translate(&Opcode::Return, &mut symbol_table).unwrap();

    let expected = vec![
        decrement(),
        load(0),
        decrement(),
        load(1),
        Instruction::Procedure {
            symbol: Global::Return,
            parameters: vec![temporary(0), temporary(1)],
        },
    ];
    assert_eq!(expected, result);
}

#[test]
fn lower_calldatacopy_pops_three_in_order() {
    let mut symbol_table = SymbolTable::new();
    let result = translate(&Opcode::CallDataCopy, &mut symbol_table).unwrap();

    let expected = vec![
        decrement(),
        load(0),
        decrement(),
        load(1),
        decrement(),
        load(2),
        Instruction::Procedure {
            symbol: Global::MemoryCopy,
            parameters: vec![temporary(0), temporary(1), temporary(2)],
        },
    ];
    assert_eq!(expected, result);
}

#[test]
fn lower_calldataload_loads_then_pushes() {
    let mut symbol_table = SymbolTable::new();
    let result = translate(&Opcode::CallDataLoad, &mut symbol_table).unwrap();

    let expected = vec![
        decrement(),
        load(0),
        Instruction::IndexedCopy {
            x: temporary(1),
            y: Symbol {
                address: Address::Label(Global::CallData),
                type_hint: Type::Word,
                kind: Global::CallData.kind(),
            },
            index: temporary(0),
        },
        Instruction::IndexedAssign {
            x: stack(),
            index: stack_height(),
            y: temporary(1),
        },
        increment(),
    ];
    assert_eq!(expected, result);
}

#[test]
fn lower_push_interprets_bytes_big_endian() {
    let mut symbol_table = SymbolTable::new();
    let opcode = Opcode::Push(vec![0xDE, 0xAD, 0xBE, 0xEF]);
    let result = translate(&opcode, &mut symbol_table).unwrap();

    let expected_value = Symbol {
        address: Address::Constant(Word::from_u64(0xDEADBEEF)),
        type_hint: Type::Bytes(4),
        kind: Kind::Value,
    };
    assert_eq!(
        &Instruction::IndexedAssign { x: stack(), index: stack_height(), y: expected_value },
        &result[0],
    );
}

#[test]
fn lower_unsupported_opcode_is_reported() {
    let mut symbol_table = SymbolTable::new();
    let result = translate(&Opcode::Unsupported(0x42), &mut symbol_table);
    assert_eq!(Err(TranslateError::UnsupportedOpcode(0x42)), result);
}

#[test]
fn lower_push_rejects_overwide_literal() {
    let mut symbol_table = SymbolTable::new();
    let opcode = Opcode::Push(vec![0xFF; 33]);
    let result = translate(&opcode, &mut symbol_table);
    assert_eq!(Err(TranslateError::PushLiteralTooWide(33)), result);
}

#[test]
fn temporaries_stay_fresh_across_opcodes() {
    let mut symbol_table = SymbolTable::new();
    let first = translate(&Opcode::Jump, &mut symbol_table).unwrap();
    let second = translate(&Opcode::Jump, &mut symbol_table).unwrap();

    assert_eq!(
        vec![decrement(), load(0), Instruction::UncoditionalBranch { target: temporary(0) }],
        first,
    );
    assert_eq!(
        vec![decrement(), load(1), Instruction::UncoditionalBranch { target: temporary(1) }],
        second,
    );
}
