//! Declarations, as the attribute parser hands them over.

use proc_macro2::Ident;
use vstd::prelude::*;

use crate::syntax::ident_text;
use crate::text::call_text;

verus! {

/// A fixture declaration: its name and its positional arguments, in the order
/// in which they were written.
pub struct Fixture {
    pub name: Ident,
    pub positional: Vec<Ident>,
}

/// The text of each identifier of a sequence.
pub open spec fn ident_texts(idents: Seq<Ident>) -> Seq<Seq<char>> {
    idents.map_values(|ident: Ident| ident_text(ident))
}

impl Fixture {
    /// The name under which the declaration is bound.
    pub open spec fn name_text(&self) -> Seq<char> {
        ident_text(self.name)
    }

    /// The positional arguments, as written and in their order.
    pub open spec fn argument_texts(&self) -> Seq<Seq<char>> {
        ident_texts(self.positional@)
    }

    /// The call that stands for the declaration by default:
    /// `name::partial_<k>(a_1, ..., a_k)` for its `k` positional arguments.
    pub open spec fn default_call(&self) -> Seq<char> {
        call_text(self.name_text(), self.argument_texts())
    }

    /// A declaration called `name` with the given positional arguments.
    pub fn new(name: Ident, positional: Vec<Ident>) -> (fixture: Fixture)
        ensures
            fixture.name == name,
            fixture.positional == positional,
    {
        Fixture { name, positional }
    }
}

} // verus!
