use rustgen::CodeGen;
use rustgen::GenContext;
use rustgen::GenError;
use rustgen::GenOptions;
use rustgen::IntLiteral;
use rustgen::Node;
use rustgen::TokenStream;
use rustgen::UnsupportedNode;

#[test]
fn default_positions_are_unknown() {
    let lit = IntLiteral { value: 5 };
    assert_eq!(lit.line_number_start(), None);
    assert_eq!(lit.column_offset_start(), None);
    assert_eq!(lit.line_number_end(), None);
    assert_eq!(lit.column_offset_end(), None);
}

#[test]
fn default_docstring_is_none() {
    let lit = IntLiteral { value: 5 };
    assert_eq!(lit.get_docstring(), None);
}

#[test]
fn find_symbols_default_is_identity() {
    let lit = IntLiteral { value: 7 };
    let table = vec!["x".to_string(), "y".to_string()];
    let out = lit.find_symbols(table.clone());
    assert_eq!(out, table);
}

#[test]
fn find_symbols_default_keeps_empty_table() {
    let lit = IntLiteral { value: 7 };
    let table: Vec<String> = Vec::new();
    let out = lit.find_symbols(table.clone());
    assert_eq!(out, table);
}

/// A node kind that introduces a binding overrides the symbol-discovery
/// default to announce it.
#[derive(Clone, Debug)]
struct LetBinding {
    name: String,
}

impl CodeGen for LetBinding {
    type Context = GenContext;
    type Options = GenOptions;
    type Error = GenError;
    type SymbolTable = Vec<String>;

    fn find_symbols(self, mut symbols_in: Vec<String>) -> Vec<String> {
        symbols_in.push(self.name);
        symbols_in
    }

    fn to_rust(
        self,
        _ctx: GenContext,
        _options: GenOptions,
        _symbols: Vec<String>,
    ) -> Result<TokenStream, GenError> {
        Err(GenError::Unsupported)
    }
}

#[test]
fn find_symbols_override_announces_binding() {
    let node = LetBinding {
        name: "total".to_string(),
    };
    let table = vec!["x".to_string()];
    let out = node.find_symbols(table);
    assert_eq!(out, vec!["x".to_string(), "total".to_string()]);
}

/// A node type that supports documentation comments overrides the docstring
/// accessor; its generation is deliberately a panic, so that these tests also
/// show that extracting the docstring neither requires nor triggers code
/// generation.
#[derive(Clone, Debug)]
struct SumNode;

impl CodeGen for SumNode {
    type Context = GenContext;
    type Options = GenOptions;
    type Error = GenError;
    type SymbolTable = Vec<String>;

    fn to_rust(
        self,
        _ctx: GenContext,
        _options: GenOptions,
        _symbols: Vec<String>,
    ) -> Result<TokenStream, GenError> {
        panic!("extracting a docstring must not reach code generation");
    }

    fn get_docstring(&self) -> Option<String> {
        Some("computes the sum".to_string())
    }
}

#[test]
fn docstring_override_returns_exact_text() {
    let node = SumNode;
    assert_eq!(node.get_docstring(), Some("computes the sum".to_string()));
    assert_eq!(node.get_docstring(), Some("computes the sum".to_string()));
}

/// A node type that knows its source extent overrides the position
/// accessors.
#[derive(Clone, Debug)]
struct SpannedNode;

impl Node for SpannedNode {
    fn line_number_start(&self) -> Option<usize> {
        Some(3)
    }

    fn column_offset_start(&self) -> Option<usize> {
        Some(1)
    }

    fn line_number_end(&self) -> Option<usize> {
        Some(4)
    }

    fn column_offset_end(&self) -> Option<usize> {
        Some(17)
    }
}

#[test]
fn position_overrides_report_extent() {
    let node = SpannedNode;
    assert_eq!(node.line_number_start(), Some(3));
    assert_eq!(node.column_offset_start(), Some(1));
    assert_eq!(node.line_number_end(), Some(4));
    assert_eq!(node.column_offset_end(), Some(17));
}

#[test]
fn unsupported_node_positions_are_unknown() {
    let node = UnsupportedNode {};
    assert_eq!(node.line_number_start(), None);
    assert_eq!(node.column_offset_end(), None);
    assert_eq!(node.get_docstring(), None);
}
