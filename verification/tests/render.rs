use ir_tac::instruction::{Instruction, Operator};
use ir_tac::symbol::{Address, Global, Kind, Symbol, SymbolTable, Type};
use ir_tac::translate::{translate, Opcode};
use ir_tac::word::Word;

const ONE_HEX: &str = "0x0000000000000000000000000000000000000000000000000000000000000001";

fn temporary(index: u64) -> Symbol {
    Symbol {
        address: Address::Temporary(index),
        type_hint: Type::Word,
        kind: Kind::Value,
    }
}

#[test]
fn render_push_snapshot() {
    let mut symbol_table = SymbolTable::new();
    let result = translate(&Opcode::Push(vec![0x01]), &mut symbol_table).unwrap();

    assert_eq!(
        format!("Stack[StackHeight] = {ONE_HEX}"),
        result[0].render(),
    );
    assert_eq!(
        format!("StackHeight = StackHeight Add {ONE_HEX}"),
        result[1].render(),
    );
}

#[test]
fn render_pop_snapshot() {
    let mut symbol_table = SymbolTable::new();
    let result = translate(&Opcode::Pop, &mut symbol_table).unwrap();
    assert_eq!(
        format!("StackHeight = StackHeight Sub {ONE_HEX}"),
        result[0].render(),
    );
}

#[test]
fn render_jump_snapshot() {
    let mut symbol_table = SymbolTable::new();
    let result = translate(&Opcode::Jump, &mut symbol_table).unwrap();
    assert_eq!("t0 = Stack[StackHeight]", result[1].render());
    assert_eq!("branch t0", result[2].render());
}

#[test]
fn render_procedure_snapshot() {
    let mut symbol_table = SymbolTable::new();
    let result = translate(&Opcode::Return, &mut symbol_table).unwrap();
    assert_eq!("Return(t0, t1, )", result[4].render());
}

#[test]
fn render_is_deterministic() {
    let mut first_table = SymbolTable::new();
    let mut second_table = SymbolTable::new();
    let first = translate(&Opcode::MStore, &mut first_table).unwrap();
    let second = translate(&Opcode::MStore, &mut second_table).unwrap();
    for (a, b) in first.iter().zip(second.iter()) {
        assert_eq!(a.render(), b.render());
        assert_eq!(a.render(), a.render());
    }
}

#[test]
fn render_temporary_uses_decimal_index() {
    assert_eq!("t12", temporary(12).render());
    assert_eq!("t0", temporary(0).render());
    assert_eq!("t107", temporary(107).render());
}

#[test]
fn render_symbol_globals_by_name() {
    let table = SymbolTable::new();
    assert_eq!("Stack", table.global(Global::Stack).render());
    assert_eq!("CallData", table.global(Global::CallData).render());
}

#[test]
fn render_covers_every_instruction_shape() {
    let x = temporary(0);
    let y = temporary(1);
    let z = temporary(2);

    let unary = Instruction::UnaryAssign { x, operator: Operator::Not, y };
    assert_eq!("t0 = Not t1", unary.render());

    let conditional = Instruction::ConditionalBranch { condition: x, target: y };
    assert_eq!("if t0 branch t1", conditional.render());

    let function = Instruction::Function {
        symbol: Global::MemoryCopy,
        x,
        parameters: vec![y, z],
    };
    assert_eq!("t0 = MemoryCopy(t1, t2, )", function.render());

    let copy = Instruction::Copy { x, y };
    assert_eq!("t0 = t1", copy.render());

    let table = SymbolTable::new();
    let constant = table.constant(Word::from_u64(0xAB), None);
    let binary = Instruction::BinaryAssign { x, y, operator: Operator::Xor, z: constant };
    assert_eq!(
        "t0 = t1 Xor 0x00000000000000000000000000000000000000000000000000000000000000ab",
        binary.render(),
    );
}
