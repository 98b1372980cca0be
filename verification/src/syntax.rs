//! The syntax-tree values this crate hands around.
//!
//! Identifiers and expressions are those of `proc_macro2` and `syn`. Nothing
//! here looks inside one: an identifier is known by its text, an expression
//! by the text it was parsed from. The two conversions between text and
//! syntax are taken on trust, each against one function of those crates.

use vstd::prelude::*;

verus! {

/// `syn::Expr`, carried as an opaque value.
#[verifier::external_type_specification]
#[verifier::external_body]
pub struct ExExpr(syn::Expr);

/// `proc_macro2::Ident`, carried as an opaque value.
#[verifier::external_type_specification]
#[verifier::external_body]
pub struct ExIdent(proc_macro2::Ident);

/// The text of an identifier, as its `to_string` gives it.
pub uninterp spec fn ident_text(ident: proc_macro2::Ident) -> Seq<char>;

/// The expression that `syn::parse_str` reads from a text, if it reads one.
pub uninterp spec fn parsed_expr(text: Seq<char>) -> Option<syn::Expr>;

/// Calls `to_string` on a `proc_macro2::Ident`, which writes the identifier
/// through its `Display` impl. Trusted: the string holds the identifier's
/// text, and the same identifier always gives the same text.
#[verifier::external_body]
pub(crate) fn ident_name(ident: &proc_macro2::Ident) -> (name: String)
    ensures
        name@ == ident_text(*ident),
{
    ident.to_string()
}

/// Calls `syn::parse_str` for a `syn::Expr`. Trusted: whether the text parses
/// as one expression, and as which, depends on the text alone. A text that
/// does not parse gives `None`; the parser's error is dropped.
#[verifier::external_body]
pub(crate) fn parse_expr(text: &str) -> (parsed: Option<syn::Expr>)
    ensures
        parsed == parsed_expr(text@),
{
    syn::parse_str::<syn::Expr>(text).ok()
}

} // verus!
