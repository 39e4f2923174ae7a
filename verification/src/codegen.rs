//! The interface contract itself: `CodeGen`, the conversion trait every node
//! type implements, and `Node`, the optional source-position capability.

use vstd::prelude::*;

verus! {

/// An AST element that can report its source extent, for diagnostics or
/// source mapping. Every accessor defaults to "unknown": absence is a
/// legitimate, non-error outcome (a synthesized node carries no position).
/// No ordering between the start and the end is promised; that is left to
/// each implementer.
pub trait Node {
    /// The line on which the node's source text starts, if known.
    fn line_number_start(&self) -> (r: Option<usize>)
        default_ensures
            r is None,
    {
        None
    }

    /// The column at which the node's source text starts, if known.
    fn column_offset_start(&self) -> (r: Option<usize>)
        default_ensures
            r is None,
    {
        None
    }

    /// The line on which the node's source text ends, if known.
    fn line_number_end(&self) -> (r: Option<usize>)
        default_ensures
            r is None,
    {
        None
    }

    /// The column at which the node's source text ends, if known.
    fn column_offset_end(&self) -> (r: Option<usize>)
        default_ensures
            r is None,
    {
        None
    }
}

/// An object that can be converted to Rust code: any type implementing this
/// trait turns itself into a `proc_macro2::TokenStream`, which the caller can
/// render to a string or splice into a larger stream.
pub trait CodeGen: core::fmt::Debug + Clone {
    /// The context of the node: where in the output the node sits, generally
    /// a closed enumeration supplied by the caller per conversion.
    type Context;

    /// The set of global compilation options, supplied by the caller per
    /// conversion.
    type Options;

    /// The error a failed conversion reports. Each implementer chooses its
    /// own closed set of error kinds.
    type Error;

    /// A symbol table: a mapping from identifiers to resolved metadata,
    /// threaded through the symbol-discovery pass.
    type SymbolTable;

    /// Gives the node the opportunity to register bindings in the symbol
    /// table before generation begins. The default is the identity: it hands
    /// the incoming table back unchanged. Node kinds that introduce bindings
    /// override this.
    fn find_symbols(self, symbols_in: Self::SymbolTable) -> (symbols_out: Self::SymbolTable)
        default_ensures
            symbols_out == symbols_in,
    {
        symbols_in
    }

    /// Converts this node into a stream of Rust tokens. The node is consumed:
    /// conversion is terminal for the value. Success means only that this
    /// node's own generation succeeded; the output may still fail scoping or
    /// type checks that happen after this stage. A failure is returned to the
    /// caller, who decides whether to abort, skip the subtree, or report.
    fn to_rust(
        self,
        ctx: Self::Context,
        options: Self::Options,
        symbols: Self::SymbolTable,
    ) -> Result<proc_macro2::TokenStream, Self::Error>;

    /// The docstring attached to this node, for node types that support
    /// documentation comments. The default reports none. Read-only: it may
    /// be called independently of, before, or after generation.
    fn get_docstring(&self) -> (r: Option<String>)
        default_ensures
            r is None,
    {
        None
    }
}

} // verus!
