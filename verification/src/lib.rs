//! A small interface for code generators that target Rust: types implementing
//! the traits here turn themselves into a `proc_macro2::TokenStream`, given a
//! caller-supplied context, a set of options, and a symbol table.

mod codegen;
mod nodes;
mod tokens;

pub use codegen::CodeGen;
pub use codegen::Node;
pub use nodes::GenContext;
pub use nodes::GenError;
pub use nodes::GenOptions;
pub use nodes::IntLiteral;
pub use nodes::UnsupportedNode;
pub use proc_macro2::TokenStream;
pub use tokens::decimal_text;
pub use tokens::digit_char;
pub use tokens::stream_text;
