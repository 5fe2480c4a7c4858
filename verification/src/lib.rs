//! Lowering of a stack-machine instruction set into three-address code.
//!
//! The crate is organised bottom-up: [`word`] holds the 256-bit machine
//! word, [`symbol`] the symbol table that names every addressable value,
//! [`instruction`] the closed instruction and operator model,
//! [`translate`] the per-opcode lowering rules together with the shared
//! stack protocol helpers, and [`render`] the canonical text form of
//! symbols and instructions.

pub mod instruction;
pub mod render;
pub mod symbol;
pub mod translate;
pub mod word;
