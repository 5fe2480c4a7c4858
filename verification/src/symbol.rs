//! The symbol table: it names and types every value the emitted
//! three-address code can reference — canonical globals, compile-time
//! constants, and fresh temporaries.

use vstd::prelude::*;

use crate::word::Word;

verus! {

/// The fixed, closed set of abstract machine resources the translator
/// must be able to name.
#[derive(Clone, Copy, PartialEq, Eq, Structural, Debug)]
pub enum Global {
    /// The operand stack, an addressable array of words.
    Stack,
    /// The number of live operand-stack slots, a 4-byte counter.
    StackHeight,
    /// Random-access memory.
    Memory,
    /// Call-input data.
    CallData,
    /// Pseudo-procedure standing for return-from-execution.
    Return,
    /// Pseudo-procedure standing for a bulk memory copy.
    MemoryCopy,
}

/// The storage class of a symbol, derived from its address.
#[derive(Clone, Copy, PartialEq, Eq, Structural, Debug)]
pub enum Kind {
    /// An addressable storage region.
    Memory,
    /// A scalar value: a constant or a temporary.
    Value,
    /// A scalar counter.
    Counter,
    /// An externally visible effect.
    Procedure,
}

/// The width hint attached to a symbol.
#[derive(Clone, Copy, PartialEq, Eq, Structural, Debug)]
pub enum Type {
    /// A fixed-width integer of the given number of bytes.
    Int(usize),
    /// A byte string of the given length, read as an unsigned integer.
    Bytes(usize),
    /// A full machine word of unknown width.
    Word,
}

/// The address of a symbol: what storage it refers to.
#[derive(Clone, Copy, PartialEq, Eq, Structural, Debug)]
pub enum Address {
    /// A named global resource.
    Label(Global),
    /// A compile-time constant value.
    Constant(Word),
    /// A fresh temporary, identified by the index at which it was minted.
    Temporary(u64),
}

/// An immutable descriptor of one typed, addressable value, usable as an
/// operand or an assignment target.
#[derive(Clone, Copy, PartialEq, Eq, Structural, Debug)]
pub struct Symbol {
    pub address: Address,
    pub type_hint: Type,
    pub kind: Kind,
}

impl Global {
    /// The storage class of this global, fixed for the program's lifetime.
    pub open spec fn spec_kind(self) -> Kind {
        match self {
            Global::Stack => Kind::Memory,
            Global::StackHeight => Kind::Counter,
            Global::Memory => Kind::Memory,
            Global::CallData => Kind::Memory,
            Global::Return => Kind::Procedure,
            Global::MemoryCopy => Kind::Procedure,
        }
    }

    /// The canonical type of this global, fixed for the program's lifetime.
    pub open spec fn spec_type(self) -> Type {
        match self {
            Global::StackHeight => Type::Int(4),
            _ => Type::Word,
        }
    }

    /// The storage class of this global.
    pub fn kind(self) -> (k: Kind)
        ensures
            k == self.spec_kind(),
    {
        match self {
            Global::Stack => Kind::Memory,
            Global::StackHeight => Kind::Counter,
            Global::Memory => Kind::Memory,
            Global::CallData => Kind::Memory,
            Global::Return => Kind::Procedure,
            Global::MemoryCopy => Kind::Procedure,
        }
    }

    /// The canonical type of this global.
    pub fn canonical_type(self) -> (t: Type)
        ensures
            t == self.spec_type(),
    {
        match self {
            Global::StackHeight => Type::Int(4),
            _ => Type::Word,
        }
    }
}

/// The type a symbol gets from an optional hint: the hint itself, or a
/// full machine word when none is given.
pub open spec fn effective_type(hint: Option<Type>) -> Type {
    match hint {
        Option::Some(t) => t,
        Option::None => Type::Word,
    }
}

/// The canonical symbol of a global resource.
pub open spec fn global_symbol(g: Global) -> Symbol {
    (Symbol { address: Address::Label(g), type_hint: g.spec_type(), kind: g.spec_kind() })
}

/// The symbol of a compile-time constant.
pub open spec fn constant_symbol(value: Word, hint: Option<Type>) -> Symbol {
    (Symbol { address: Address::Constant(value), type_hint: effective_type(hint), kind: Kind::Value })
}

/// The symbol of the temporary minted at index `index`.
pub open spec fn temporary_symbol(index: u64, hint: Option<Type>) -> Symbol {
    (Symbol { address: Address::Temporary(index), type_hint: effective_type(hint), kind: Kind::Value })
}

/// The universe of addressable values of one compilation unit. Its only
/// mutable state is the count of temporaries minted so far, which is what
/// keeps every temporary unique.
pub struct SymbolTable {
    next_temporary: u64,
}

impl SymbolTable {
    /// How many temporaries this table has minted.
    pub closed spec fn temporaries_minted(self) -> u64 {
        self.next_temporary
    }

    /// How many temporaries this table has minted, as a runtime value.
    pub fn temporaries_minted_count(&self) -> (r: u64)
        ensures
            r == self.temporaries_minted(),
    {
        self.next_temporary
    }

    /// A fresh table that has minted no temporaries.
    pub fn new() -> (r: SymbolTable)
        ensures
            r.temporaries_minted() == 0,
    {
        SymbolTable { next_temporary: 0 }
    }

    /// The canonical symbol for a global resource: every call with the
    /// same global yields the same address, kind, and type.
    pub fn global(&self, g: Global) -> (r: Symbol)
        ensures
            r == global_symbol(g),
    {
        Symbol { address: Address::Label(g), type_hint: g.canonical_type(), kind: g.kind() }
    }

    /// Materialize a literal as an operand. Without a hint the constant
    /// gets the default full-word type.
    pub fn constant(&self, value: Word, type_hint: Option<Type>) -> (r: Symbol)
        ensures
            r == constant_symbol(value, type_hint),
    {
        let t = match type_hint {
            Option::Some(t) => t,
            Option::None => Type::Word,
        };
        Symbol { address: Address::Constant(value), type_hint: t, kind: Kind::Value }
    }

    /// Mint a brand-new temporary: its address carries an index never
    /// issued before and never issued again.
    pub fn temporary(&mut self, type_hint: Option<Type>) -> (r: Symbol)
        requires
            old(self).temporaries_minted() < u64::MAX,
        ensures
            r == temporary_symbol(old(self).temporaries_minted(), type_hint),
            final(self).temporaries_minted() == old(self).temporaries_minted() + 1,
    {
        let index = self.next_temporary;
        self.next_temporary = self.next_temporary + 1;
        let t = match type_hint {
            Option::Some(t) => t,
            Option::None => Type::Word,
        };
        Symbol { address: Address::Temporary(index), type_hint: t, kind: Kind::Value }
    }
}

impl Default for SymbolTable {
    /// A fresh table that has minted no temporaries.
    fn default() -> (r: SymbolTable)
        ensures
            r.temporaries_minted() == 0,
    {
        SymbolTable::new()
    }
}

/// Two canonical global symbols are equal exactly when they name the same
/// global: `global` is idempotent, and symbols for the same underlying
/// storage can be compared structurally.
pub proof fn lemma_global_symbol_consistent(g1: Global, g2: Global)
    ensures
        (global_symbol(g1) == global_symbol(g2)) <==> g1 == g2,
{
}

/// Two constant symbols are equal exactly when their numeric value and
/// their effective type hint are equal: equal value and hint always
/// compare equal, and different values or hints never do.
pub proof fn lemma_constant_symbol_equality(v1: Word, h1: Option<Type>, v2: Word, h2: Option<Type>)
    ensures
        (constant_symbol(v1, h1) == constant_symbol(v2, h2)) <==> (v1.as_nat() == v2.as_nat()
            && effective_type(h1) == effective_type(h2)),
{
    crate::word::lemma_as_nat_injective(v1, v2);
}

/// Temporaries minted at different indices are distinct symbols, whatever
/// type hints they were requested with. Since `temporary` strictly
/// increases the mint index, any run of calls yields pairwise-distinct
/// symbols.
pub proof fn lemma_temporary_symbols_distinct(
    i1: u64,
    h1: Option<Type>,
    i2: u64,
    h2: Option<Type>,
)
    requires
        i1 != i2,
    ensures
        temporary_symbol(i1, h1) != temporary_symbol(i2, h2),
{
}

} // verus!
