//! Minimal reference implementations of the interface: an unsigned integer
//! literal node, and a placeholder node whose conversion always fails. They
//! show what a conforming node type provides and what its conversion
//! promises.

use vstd::prelude::*;

use crate::codegen::CodeGen;
use crate::codegen::Node;
use crate::tokens::decimal_text;
use crate::tokens::stream_text;
use crate::tokens::stream_to_string;
use crate::tokens::u64_literal_stream;

verus! {

/// Where in the output a node sits.
#[derive(Clone, Copy, Debug, PartialEq, Eq, Structural)]
pub enum GenContext {
    /// The node stands as (part of) an expression.
    Expression,
    /// The node stands as a statement of its own.
    Statement,
}

/// Compilation options for the reference nodes. They need none, so the set
/// is empty; it exists so that the conversion signature is exercised in full.
#[derive(Clone, Copy, Debug, PartialEq, Eq, Structural)]
pub struct GenOptions {}

impl Default for GenOptions {
    fn default() -> (r: Self)
        ensures
            r == (GenOptions {}),
    {
        GenOptions {}
    }
}

/// The error the reference nodes report.
#[derive(Clone, Copy, Debug, PartialEq, Eq, Structural)]
pub enum GenError {
    /// The node stands for a construct the generator does not handle.
    Unsupported,
}

/// An unsigned integer literal: the simplest node that generates code. Its
/// conversion renders the value as an unsuffixed decimal literal.
#[derive(Clone, Copy, Debug, PartialEq, Eq, Structural)]
pub struct IntLiteral {
    /// The value the generated literal denotes.
    pub value: u64,
}

/// A literal is synthesized as far as this crate knows, so every position
/// accessor keeps its default and reports "unknown".
impl Node for IntLiteral {

}

impl CodeGen for IntLiteral {
    type Context = GenContext;

    type Options = GenOptions;

    type Error = GenError;

    type SymbolTable = Vec<String>;

    /// Generation always succeeds, in every context and under every option
    /// set, and the stream it returns renders as the plain decimal digits of
    /// `self.value`.
    fn to_rust(
        self,
        ctx: GenContext,
        options: GenOptions,
        symbols: Vec<String>,
    ) -> (r: Result<proc_macro2::TokenStream, GenError>)
        ensures
            r is Ok,
            stream_text(r->Ok_0) == decimal_text(self.value as nat),
    {
        Ok(u64_literal_stream(self.value))
    }
}

impl IntLiteral {
    /// Converts this node and renders the resulting stream to a string: the
    /// decimal digits of `self.value`, and nothing else.
    pub fn rust_string(
        self,
        ctx: GenContext,
        options: GenOptions,
        symbols: Vec<String>,
    ) -> (r: Result<String, GenError>)
        ensures
            r is Ok,
            r->Ok_0@ == decimal_text(self.value as nat),
    {
        match self.to_rust(ctx, options, symbols) {
            Ok(stream) => Ok(stream_to_string(&stream)),
            Err(e) => Err(e),
        }
    }
}

/// A placeholder for a source construct the generator does not handle yet:
/// conversion always fails, whatever context, options and symbols are
/// supplied, and no token stream is produced.
#[derive(Clone, Copy, Debug, PartialEq, Eq, Structural)]
pub struct UnsupportedNode {}

impl Node for UnsupportedNode {

}

impl CodeGen for UnsupportedNode {
    type Context = GenContext;

    type Options = GenOptions;

    type Error = GenError;

    type SymbolTable = Vec<String>;

    /// Conversion fails on every input, reporting `GenError::Unsupported`.
    fn to_rust(
        self,
        ctx: GenContext,
        options: GenOptions,
        symbols: Vec<String>,
    ) -> (r: Result<proc_macro2::TokenStream, GenError>)
        ensures
            r is Err,
            r->Err_0 == GenError::Unsupported,
    {
        Err(GenError::Unsupported)
    }
}

} // verus!
