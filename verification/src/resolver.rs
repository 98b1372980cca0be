//! The `Resolver` trait, its carriers of bindings, and their composition.
//!
//! A resolver answers one question: which expression, if any, stands for a
//! name. What it answers is its `binding`, a function from names to optional
//! expressions, and every lookup returns exactly that. A missing binding is an
//! ordinary answer, `None`, and never a failure.

use std::borrow::Cow;

use proc_macro2::Ident;
use syn::Expr;
use vstd::hash_map::StringHashMap;
use vstd::prelude::*;

use crate::syntax::{ident_name, ident_text};
use crate::text::same_text;

pub mod fixtures;

verus! {

/// The expression that a lookup handed out, whether it is borrowed from the
/// resolver or owned by the caller.
pub open spec fn expression(found: Option<Cow<Expr>>) -> Option<Expr> {
    match found {
        Some(Cow::Borrowed(expr)) => Some(*expr),
        Some(Cow::Owned(expr)) => Some(expr),
        None => None,
    }
}

/// Resolves a name to the expression that stands for it.
pub trait Resolver {
    /// The expression bound to `name`, if the resolver has one.
    spec fn binding(&self, name: Seq<char>) -> Option<Expr>;

    /// Looks up the expression bound to `name`. Names match on their exact
    /// text.
    fn resolve_name<'a>(&'a self, name: &str) -> (found: Option<Cow<'a, Expr>>)
        ensures
            expression(found) == self.binding(name@),
    ;

    /// Looks up the expression bound to the text of `ident`.
    fn resolve<'a>(&'a self, ident: &Ident) -> (found: Option<Cow<'a, Expr>>)
        ensures
            expression(found) == self.binding(ident_text(*ident)),
    {
        let name = ident_name(ident);
        self.resolve_name(name.as_str())
    }
}

/// A mapping from names to the expressions it owns: a name resolves to the
/// stored expression if and only if it is a key.
impl Resolver for StringHashMap<Expr> {
    open spec fn binding(&self, name: Seq<char>) -> Option<Expr> {
        if self@.contains_key(name) {
            Some(self@[name])
        } else {
            None
        }
    }

    fn resolve_name<'a>(&'a self, name: &str) -> (found: Option<Cow<'a, Expr>>)
        ensures
            found is Some <==> self@.contains_key(name@),
            found matches Some(handle) ==> handle == Cow::<Expr>::Borrowed(&self@[name@]),
    {
        match self.get(name) {
            Some(expr) => Some(Cow::Borrowed(expr)),
            None => None,
        }
    }
}

/// A mapping from names to expressions that live elsewhere: a lookup hands out
/// the stored reference itself, not a reference to it.
impl<'e> Resolver for StringHashMap<&'e Expr> {
    open spec fn binding(&self, name: Seq<char>) -> Option<Expr> {
        if self@.contains_key(name) {
            Some(*self@[name])
        } else {
            None
        }
    }

    fn resolve_name<'a>(&'a self, name: &str) -> (found: Option<Cow<'a, Expr>>)
        ensures
            found is Some <==> self@.contains_key(name@),
            found matches Some(handle) ==> handle == Cow::<Expr>::Borrowed(self@[name@]),
    {
        match self.get(name) {
            Some(expr) => Some(Cow::Borrowed(*expr)),
            None => None,
        }
    }
}

/// One binding: the pair's expression for the pair's name, nothing for any
/// other name.
impl Resolver for (String, Expr) {
    open spec fn binding(&self, name: Seq<char>) -> Option<Expr> {
        if self.0@ == name {
            Some(self.1)
        } else {
            None
        }
    }

    fn resolve_name<'a>(&'a self, name: &str) -> (found: Option<Cow<'a, Expr>>)
        ensures
            found is Some <==> self.0@ == name@,
            found matches Some(handle) ==> handle == Cow::<Expr>::Borrowed(&self.1),
    {
        if same_text(self.0.as_str(), name) {
            Some(Cow::Borrowed(&self.1))
        } else {
            None
        }
    }
}

/// Two resolvers in order of precedence: the first answers wherever it has a
/// binding, and the second is asked only where the first has none.
impl<R1: Resolver, R2: Resolver> Resolver for (R1, R2) {
    open spec fn binding(&self, name: Seq<char>) -> Option<Expr> {
        match self.0.binding(name) {
            Some(expr) => Some(expr),
            None => self.1.binding(name),
        }
    }

    fn resolve_name<'a>(&'a self, name: &str) -> (found: Option<Cow<'a, Expr>>)
        ensures
            self.0.binding(name@) is Some ==> expression(found) == self.0.binding(name@),
            self.0.binding(name@) is None ==> expression(found) == self.1.binding(name@),
    {
        match self.0.resolve_name(name) {
            Some(handle) => Some(handle),
            None => self.1.resolve_name(name),
        }
    }
}

/// A shared reference resolves as what it points to.
impl<R: Resolver + ?Sized> Resolver for &R {
    open spec fn binding(&self, name: Seq<char>) -> Option<Expr> {
        (**self).binding(name)
    }

    fn resolve_name<'a>(&'a self, name: &str) -> (found: Option<Cow<'a, Expr>>) {
        (**self).resolve_name(name)
    }
}

/// A box resolves as what it holds, whatever concrete resolver that is.
impl<R: Resolver + ?Sized> Resolver for Box<R> {
    open spec fn binding(&self, name: Seq<char>) -> Option<Expr> {
        (**self).binding(name)
    }

    fn resolve_name<'a>(&'a self, name: &str) -> (found: Option<Cow<'a, Expr>>) {
        (**self).resolve_name(name)
    }
}

/// A composite never invents a binding: it binds a name exactly when one of
/// its two parts does.
pub proof fn lemma_composite_binds_what_a_part_binds<R1: Resolver, R2: Resolver>(
    first: R1,
    second: R2,
    name: Seq<char>,
)
    ensures
        (first, second).binding(name) is Some <==> first.binding(name) is Some || second.binding(
            name,
        ) is Some,
{
}

/// Nesting on the left and nesting on the right consult the same resolvers in
/// the same order, so they resolve every name alike.
pub proof fn lemma_composition_is_associative<R1: Resolver, R2: Resolver, R3: Resolver>(
    first: R1,
    second: R2,
    third: R3,
    name: Seq<char>,
)
    ensures
        ((first, second), third).binding(name) == (first, (second, third)).binding(name),
{
}

/// A mapping over borrowed expressions and a mapping over owned ones resolve
/// every name alike when they hold the same expressions under the same names.
pub proof fn lemma_borrowed_resolves_as_owned<'e>(
    owned: StringHashMap<Expr>,
    borrowed: StringHashMap<&'e Expr>,
    name: Seq<char>,
)
    requires
        owned@.dom() == borrowed@.dom(),
        forall|key: Seq<char>| #[trigger] owned@.contains_key(key) ==> owned@[key] == *borrowed@[key],
    ensures
        owned.binding(name) == borrowed.binding(name),
{
}

} // verus!
