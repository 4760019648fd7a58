//! The generation-time surface is Rust source text: an attribute argument
//! list and one decorated item. Recognizing that text is delegated to syn;
//! everything stated about it is stated over the two names below.
use vstd::prelude::*;

verus! {

/// The values denoted by a comma-separated list of string literals, in
/// order, or `None` where the text is not such a list.
pub uninterp spec fn parsed_str_lit_args(s: Seq<char>) -> Option<Seq<Seq<char>>>;

/// Whether the text is a single function item.
pub uninterp spec fn is_fn_item(s: Seq<char>) -> bool;

/// Relies on syn: `Punctuated::<LitStr, Comma>::parse_terminated` consumes
/// the whole input and succeeds exactly when it is a comma-separated list
/// of string literals, and `LitStr::value` yields each literal's denoted
/// string; the outcome depends on the text alone.
#[verifier::external_body]
pub(crate) fn parse_str_lit_args(s: &str) -> (r: Option<Vec<String>>)
    ensures
        r is Some <==> parsed_str_lit_args(s@) is Some,
        r matches Some(v) ==> parsed_str_lit_args(s@) == Some(v@.map_values(|x: String| x@)),
{
    let parser = syn::punctuated::Punctuated::<syn::LitStr, syn::token::Comma>::parse_terminated;
    match syn::parse::Parser::parse_str(parser, s) {
        Ok(lits) => Some(lits.into_iter().map(|lit| lit.value()).collect()),
        Err(_) => None,
    }
}

/// Relies on syn: `syn::parse_str::<syn::ItemFn>` consumes the whole input
/// and succeeds exactly when it is one function item; the outcome depends
/// on the text alone.
#[verifier::external_body]
pub(crate) fn parse_fn_item(s: &str) -> (r: bool)
    ensures
        r == is_fn_item(s@),
{
    syn::parse_str::<syn::ItemFn>(s).is_ok()
}

} // verus!
