//! The output side of the interface: `proc_macro2::TokenStream` made known to
//! the verifier, together with a spec-level view of a stream's textual
//! rendering and the few stream constructors the example nodes use.

use vstd::prelude::*;

verus! {

#[verifier::external_type_specification]
#[verifier::external_body]
pub struct ExTokenStream(proc_macro2::TokenStream);

/// The characters that `Display` for `proc_macro2::TokenStream` produces for
/// this stream. The rendering depends only on the tokens the stream holds.
pub uninterp spec fn stream_text(s: proc_macro2::TokenStream) -> Seq<char>;

/// The character for a single decimal digit `d` (`d < 10`).
pub open spec fn digit_char(d: nat) -> char {
    if d == 0 {
        '0'
    } else if d == 1 {
        '1'
    } else if d == 2 {
        '2'
    } else if d == 3 {
        '3'
    } else if d == 4 {
        '4'
    } else if d == 5 {
        '5'
    } else if d == 6 {
        '6'
    } else if d == 7 {
        '7'
    } else if d == 8 {
        '8'
    } else {
        '9'
    }
}

/// The decimal rendering of `n`: its digits, most significant first, with no
/// sign, no leading zeros (except for `n == 0`) and no suffix.
pub open spec fn decimal_text(n: nat) -> Seq<char>
    decreases n,
{
    if n < 10 {
        seq![digit_char(n)]
    } else {
        decimal_text(n / 10).push(digit_char(n % 10))
    }
}

/// Relies on `proc_macro2::Literal::u64_unsuffixed`: the literal's text is the
/// plain decimal rendering of `value`, and a stream holding that single
/// literal renders as exactly that text.
#[verifier::external_body]
pub(crate) fn u64_literal_stream(value: u64) -> (s: proc_macro2::TokenStream)
    ensures
        stream_text(s) == decimal_text(value as nat),
{
    proc_macro2::TokenStream::from(proc_macro2::TokenTree::Literal(
        proc_macro2::Literal::u64_unsuffixed(value),
    ))
}

/// Relies on `Display` for `proc_macro2::TokenStream` (through `ToString`):
/// `to_string` yields the stream's rendering.
#[verifier::external_body]
pub(crate) fn stream_to_string(s: &proc_macro2::TokenStream) -> (r: String)
    ensures
        r@ == stream_text(*s),
{
    s.to_string()
}

} // verus!
