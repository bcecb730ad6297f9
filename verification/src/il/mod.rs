//! The intermediate language: types, expressions, statements and blocks.

pub mod block;
pub mod value;

pub use block::{Block, Statement, StatementView};
pub use value::{BinaryOp, Type, TypeView, UnaryOp, Value, ValueView};
