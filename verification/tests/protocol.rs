use ir_tac::instruction::{Instruction, Operator};
use ir_tac::symbol::{Address, Global, Kind, Symbol, SymbolTable, Type};
use ir_tac::translate::{stack_pop, stack_push};
use ir_tac::word::Word;

fn stack() -> Symbol {
    Symbol {
        address: Address::Label(Global::Stack),
        type_hint: Type::Word,
        kind: Kind::Memory,
    }
}

fn stack_height() -> Symbol {
    Symbol {
        address: Address::Label(Global::StackHeight),
        type_hint: Type::Int(4),
        kind: Kind::Counter,
    }
}

fn one_int4() -> Symbol {
    Symbol {
        address: Address::Constant(Word::from_u64(1)),
        type_hint: Type::Int(4),
        kind: Kind::Value,
    }
}

#[test]
fn pop_protocol_decrements_then_loads() {
    let mut symbol_table = SymbolTable::new();
    let pop = stack_pop(&mut symbol_table);

    assert_eq!(
        Instruction::BinaryAssign {
            x: stack_height(),
            y: stack_height(),
            operator: Operator::Sub,
            z: one_int4(),
        },
        pop.decrement,
    );
    let fresh = Symbol {
        address: Address::Temporary(0),
        type_hint: Type::Word,
        kind: Kind::Value,
    };
    assert_eq!(
        Instruction::IndexedCopy { x: fresh, y: stack(), index: stack_height() },
        pop.load,
    );
    assert_eq!(fresh, pop.load.target_address());
}

#[test]
fn push_protocol_stores_then_increments() {
    let mut symbol_table = SymbolTable::new();
    let value = symbol_table.constant(Word::from_u64(9), None);
    let push = stack_push(&mut symbol_table, value);

    assert_eq!(
        Instruction::IndexedAssign { x: stack(), index: stack_height(), y: value },
        push.assign,
    );
    assert_eq!(
        Instruction::BinaryAssign {
            x: stack_height(),
            y: stack_height(),
            operator: Operator::Add,
            z: one_int4(),
        },
        push.increment,
    );
    assert_eq!(stack(), push.assign.target_address());
}

#[test]
fn push_protocol_mints_no_temporary() {
    let mut symbol_table = SymbolTable::new();
    let value = symbol_table.constant(Word::from_u64(9), None);
    let _ = stack_push(&mut symbol_table, value);
    assert_eq!(0, symbol_table.temporaries_minted_count());
}

#[test]
fn pop_protocol_mints_one_temporary_per_call() {
    let mut symbol_table = SymbolTable::new();
    let first = stack_pop(&mut symbol_table);
    let second = stack_pop(&mut symbol_table);
    assert_eq!(2, symbol_table.temporaries_minted_count());
    assert_ne!(first.load.target_address(), second.load.target_address());
}
