//! Default expressions for fixture declarations, and the resolver that binds
//! each declaration's name to its default.
//!
//! The default for a declaration `name` with positional arguments
//! `a_1, ..., a_k` is the call `name::partial_<k>(a_1, ..., a_k)`. The call is
//! written out as text and then parsed. A declaration is well formed when that
//! text parses as an expression; the functions that promise an expression ask
//! for well-formed declarations, and `try_get` asks for nothing.

use syn::Expr;
use vstd::hash_map::StringHashMap;
use vstd::pervasive::unreached;
use vstd::prelude::*;

use crate::parse::{ident_texts, Fixture};
use crate::resolver::Resolver;
use crate::syntax::{ident_name, ident_text, parse_expr, parsed_expr};
use crate::text::{render_call, texts};

verus! {

/// Whether the default call of the declaration parses as an expression.
pub open spec fn well_formed(fixture: Fixture) -> bool {
    parsed_expr(fixture.default_call()) is Some
}

/// Whether every declaration of the sequence is well formed.
pub open spec fn all_well_formed(fixtures: Seq<Fixture>) -> bool {
    forall|i: int| 0 <= i < fixtures.len() ==> well_formed(#[trigger] fixtures[i])
}

/// The default expression of a well-formed declaration: its default call,
/// parsed.
pub open spec fn default_expression(fixture: Fixture) -> Expr
    recommends
        well_formed(fixture),
{
    parsed_expr(fixture.default_call())->0
}

/// The position of the last declaration called `name`, if any is.
pub open spec fn last_declaration(fixtures: Seq<Fixture>, name: Seq<char>) -> Option<int>
    decreases fixtures.len(),
{
    if fixtures.len() == 0 {
        None
    } else if fixtures.last().name_text() == name {
        Some(fixtures.len() - 1)
    } else {
        last_declaration(fixtures.drop_last(), name)
    }
}

/// The bindings that a sequence of declarations gives: each declared name is
/// bound to the default expression of the last declaration of that name, and
/// no other name is bound.
pub open spec fn bindings(fixtures: Seq<Fixture>) -> Map<Seq<char>, Expr> {
    Map::new(
        |name: Seq<char>| last_declaration(fixtures, name) is Some,
        |name: Seq<char>| default_expression(fixtures[last_declaration(fixtures, name)->0]),
    )
}

/// `last_declaration` finds a declaration of the name, and none of that name
/// comes after it; it finds nothing only where no declaration has the name.
pub proof fn lemma_last_declaration(fixtures: Seq<Fixture>, name: Seq<char>)
    ensures
        match last_declaration(fixtures, name) {
            Some(at) => {
                &&& 0 <= at < fixtures.len()
                &&& fixtures[at].name_text() == name
                &&& forall|later: int|
                    at < later < fixtures.len() ==> (#[trigger] fixtures[later]).name_text() != name
            },
            None => forall|i: int|
                0 <= i < fixtures.len() ==> (#[trigger] fixtures[i]).name_text() != name,
        },
    decreases fixtures.len(),
{
    if fixtures.len() > 0 && fixtures.last().name_text() != name {
        let front = fixtures.drop_last();
        lemma_last_declaration(front, name);
        assert forall|i: int| 0 <= i < front.len() implies front[i] == fixtures[i] by {}
        match last_declaration(front, name) {
            Some(at) => {
                assert forall|later: int| at < later < fixtures.len() implies (
                #[trigger] fixtures[later]).name_text() != name by {
                    if later < front.len() {
                        assert(front[later] == fixtures[later]);
                    }
                }
            },
            None => {
                assert forall|i: int| 0 <= i < fixtures.len() implies (
                #[trigger] fixtures[i]).name_text() != name by {
                    if i < front.len() {
                        assert(front[i] == fixtures[i]);
                    }
                }
            },
        }
    }
}

/// One more declaration at the end adds its binding, and replaces the binding
/// of an earlier declaration of the same name.
pub proof fn lemma_bindings_push(fixtures: Seq<Fixture>, fixture: Fixture)
    ensures
        bindings(fixtures.push(fixture)) == bindings(fixtures).insert(
            fixture.name_text(),
            default_expression(fixture),
        ),
{
    let longer = fixtures.push(fixture);
    assert(longer.drop_last() =~= fixtures);
    assert(longer.last() == fixture);
    assert forall|name: Seq<char>|
        last_declaration(longer, name) == if fixture.name_text() == name {
            Some(fixtures.len() as int)
        } else {
            last_declaration(fixtures, name)
        } by {}
    assert forall|name: Seq<char>| #[trigger]
        bindings(longer).contains_key(name) implies bindings(longer)[name] == bindings(
        fixtures,
    ).insert(fixture.name_text(), default_expression(fixture))[name] by {
        if fixture.name_text() != name {
            lemma_last_declaration(fixtures, name);
            let at = last_declaration(fixtures, name)->0;
            assert(longer[at] == fixtures[at]);
        }
    }
    assert(bindings(longer) =~= bindings(fixtures).insert(
        fixture.name_text(),
        default_expression(fixture),
    ));
}

/// A name that no declaration has is not bound: a resolver made from
/// declarations alone answers `None` for it.
pub proof fn lemma_unknown_name_is_unbound(
    fixtures: Seq<Fixture>,
    resolver: StringHashMap<Expr>,
    name: Seq<char>,
)
    requires
        resolver@ == bindings(fixtures),
        forall|i: int| 0 <= i < fixtures.len() ==> (#[trigger] fixtures[i]).name_text() != name,
    ensures
        resolver.binding(name) is None,
{
    lemma_last_declaration(fixtures, name);
}

/// A declared name is bound, and bound to the default expression of the last
/// declaration that has it: one binding for each name, the last one wins.
pub proof fn lemma_last_declaration_wins(
    fixtures: Seq<Fixture>,
    resolver: StringHashMap<Expr>,
    at: int,
)
    requires
        resolver@ == bindings(fixtures),
        0 <= at < fixtures.len(),
        forall|later: int|
            at < later < fixtures.len() ==> (#[trigger] fixtures[later]).name_text()
                != fixtures[at].name_text(),
    ensures
        resolver.binding(fixtures[at].name_text()) == Some(default_expression(fixtures[at])),
{
    let name = fixtures[at].name_text();
    lemma_last_declaration(fixtures, name);
    let found = last_declaration(fixtures, name);
    assert(found is Some);
    assert(found->0 == at) by {
        if found->0 < at {
            assert(fixtures[at].name_text() == name);
        }
    }
}

/// Writes the default call of the declaration.
pub fn default_call_text(fixture: &Fixture) -> (text: String)
    ensures
        text@ == fixture.default_call(),
{
    let name = ident_name(&fixture.name);
    let mut arguments: Vec<String> = Vec::new();
    let mut i: usize = 0;
    while i < fixture.positional.len()
        invariant
            i <= fixture.positional.len(),
            arguments.len() == i,
            forall|j: int|
                0 <= j < i ==> (#[trigger] arguments[j])@ == ident_text(fixture.positional[j]),
        decreases fixture.positional.len() - i,
    {
        arguments.push(ident_name(&fixture.positional[i]));
        i = i + 1;
    }
    assert(texts(arguments@) =~= ident_texts(fixture.positional@));
    render_call(name.as_str(), &arguments)
}

/// Whether the declaration is well formed.
pub fn is_well_formed(fixture: &Fixture) -> (ok: bool)
    ensures
        ok == well_formed(*fixture),
{
    let text = default_call_text(fixture);
    parse_expr(text.as_str()).is_some()
}

/// The default expression of a declaration: the call of the constructor
/// `partial_<k>` of its name on its `k` positional arguments, in their order.
pub fn extract_resolve_expression(fixture: &Fixture) -> (expr: Expr)
    requires
        well_formed(*fixture),
    ensures
        expr == default_expression(*fixture),
{
    let text = default_call_text(fixture);
    match parse_expr(text.as_str()) {
        Some(expr) => expr,
        None => unreached(),
    }
}

/// The resolver for a sequence of declarations: it binds the name of each to
/// its default expression. Where two declarations share a name, the later one
/// is bound.
pub fn get(fixtures: &[Fixture]) -> (resolver: StringHashMap<Expr>)
    requires
        all_well_formed(fixtures@),
    ensures
        resolver@ == bindings(fixtures@),
{
    let mut resolver: StringHashMap<Expr> = StringHashMap::new();
    let mut i: usize = 0;
    assert(bindings(fixtures@.take(0)) =~= Map::empty());
    while i < fixtures.len()
        invariant
            i <= fixtures.len(),
            all_well_formed(fixtures@),
            resolver@ == bindings(fixtures@.take(i as int)),
        decreases fixtures.len() - i,
    {
        let fixture = &fixtures[i];
        proof {
            lemma_bindings_push(fixtures@.take(i as int), *fixture);
            assert(fixtures@.take(i + 1) =~= fixtures@.take(i as int).push(*fixture));
        }
        resolver.insert(ident_name(&fixture.name), extract_resolve_expression(fixture));
        i = i + 1;
    }
    assert(fixtures@.take(i as int) =~= fixtures@);
    resolver
}

/// The resolver for a sequence of declarations, if every one of them is well
/// formed; `None` if one is not.
pub fn try_get(fixtures: &[Fixture]) -> (built: Option<StringHashMap<Expr>>)
    ensures
        built is Some <==> all_well_formed(fixtures@),
        built matches Some(resolver) ==> resolver@ == bindings(fixtures@),
{
    let mut i: usize = 0;
    while i < fixtures.len()
        invariant
            i <= fixtures.len(),
            forall|j: int| 0 <= j < i ==> well_formed(#[trigger] fixtures@[j]),
        decreases fixtures.len() - i,
    {
        if !is_well_formed(&fixtures[i]) {
            return None;
        }
        i = i + 1;
    }
    Some(get(fixtures))
}

} // verus!
