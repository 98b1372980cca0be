//! Text of names and of the calls built from them.
//!
//! A name is its sequence of characters; two names are equal when those
//! sequences are. The call that stands for a declaration by default is written
//! out here as text, character for character, before anything parses it.

use vstd::prelude::*;
use vstd::std_specs::iter::IteratorSpec;
use vstd::string::StringExecFns;

verus! {

/// The character that writes the digit `d` in base ten.
pub open spec fn digit(d: nat) -> char
    recommends
        d < 10,
{
    seq!['0', '1', '2', '3', '4', '5', '6', '7', '8', '9'][d as int]
}

/// `n` written in base ten: no sign, no leading zero, `0` for zero.
pub open spec fn decimal(n: nat) -> Seq<char>
    decreases n,
{
    if n < 10 {
        seq![digit(n)]
    } else {
        decimal(n / 10).push(digit(n % 10))
    }
}

/// The name of the constructor that takes `arity` positional arguments.
pub open spec fn partial_name(arity: nat) -> Seq<char> {
    "partial_"@ + decimal(arity)
}

/// The items in their order, with `, ` between each two neighbours.
pub open spec fn comma_separated(items: Seq<Seq<char>>) -> Seq<char>
    decreases items.len(),
{
    if items.len() == 0 {
        Seq::empty()
    } else if items.len() == 1 {
        items[0]
    } else {
        comma_separated(items.drop_last()) + ", "@ + items.last()
    }
}

/// The call `name::partial_<k>(a_1, ..., a_k)` for the `k` given arguments.
pub open spec fn call_text(name: Seq<char>, arguments: Seq<Seq<char>>) -> Seq<char> {
    name + "::"@ + partial_name(arguments.len()) + "("@ + comma_separated(arguments) + ")"@
}

/// What each string of a sequence holds.
pub open spec fn texts(strings: Seq<String>) -> Seq<Seq<char>> {
    strings.map_values(|s: String| s@)
}

/// Whether two names are the same name: the same characters in the same
/// order, case included.
pub fn same_text(left: &str, right: &str) -> (same: bool)
    ensures
        same == (left@ == right@),
{
    broadcast use vstd::string::group_string_axioms;

    let mut l = left.chars();
    let mut r = right.chars();
    let ghost mut done: int = 0;
    loop
        invariant
            0 <= done <= left@.len(),
            done <= right@.len(),
            left@.subrange(0, done) == right@.subrange(0, done),
            l.remaining() == left@.subrange(done, left@.len() as int),
            r.remaining() == right@.subrange(done, right@.len() as int),
            l.obeys_prophetic_iter_laws(),
            r.obeys_prophetic_iter_laws(),
        decreases left@.len() - done,
    {
        let a = l.next();
        let b = r.next();
        match (a, b) {
            (None, None) => {
                assert(left@ =~= left@.subrange(0, done));
                assert(right@ =~= right@.subrange(0, done));
                return true;
            },
            (Some(x), Some(y)) => {
                if x != y {
                    assert(left@[done] != right@[done]);
                    return false;
                }
                proof {
                    assert(left@.subrange(0, done + 1) =~= left@.subrange(0, done).push(x));
                    assert(right@.subrange(0, done + 1) =~= right@.subrange(0, done).push(y));
                    done = done + 1;
                }
            },
            _ => {
                assert(left@.len() != right@.len());
                return false;
            },
        }
    }
}

fn digit_text(d: usize) -> (text: &'static str)
    requires
        d < 10,
    ensures
        text@ == seq![digit(d as nat)],
{
    proof {
        reveal_strlit("0");
        reveal_strlit("1");
        reveal_strlit("2");
        reveal_strlit("3");
        reveal_strlit("4");
        reveal_strlit("5");
        reveal_strlit("6");
        reveal_strlit("7");
        reveal_strlit("8");
        reveal_strlit("9");
    }
    let text = if d == 0 {
        "0"
    } else if d == 1 {
        "1"
    } else if d == 2 {
        "2"
    } else if d == 3 {
        "3"
    } else if d == 4 {
        "4"
    } else if d == 5 {
        "5"
    } else if d == 6 {
        "6"
    } else if d == 7 {
        "7"
    } else if d == 8 {
        "8"
    } else {
        "9"
    };
    assert(text@ =~= seq![digit(d as nat)]);
    text
}

/// Writes `n` in base ten.
pub fn decimal_string(n: usize) -> (text: String)
    ensures
        text@ == decimal(n as nat),
    decreases n,
{
    if n < 10 {
        digit_text(n).to_owned()
    } else {
        let mut text = decimal_string(n / 10);
        text.append(digit_text(n % 10));
        assert(text@ =~= decimal((n / 10) as nat).push(digit((n % 10) as nat)));
        text
    }
}

/// The name of the constructor that takes `arity` positional arguments.
pub fn partial_name_string(arity: usize) -> (text: String)
    ensures
        text@ == partial_name(arity as nat),
{
    let mut text = "partial_".to_owned();
    let digits = decimal_string(arity);
    text.append(digits.as_str());
    text
}

/// Joins the items in their order with `, `.
pub fn join_comma_separated(items: &Vec<String>) -> (text: String)
    ensures
        text@ == comma_separated(texts(items@)),
{
    let mut text = String::new();
    let mut i: usize = 0;
    while i < items.len()
        invariant
            i <= items.len(),
            text@ == comma_separated(texts(items@).take(i as int)),
        decreases items.len() - i,
    {
        let ghost before = texts(items@).take(i as int);
        let ghost after = texts(items@).take(i + 1);
        assert(after.drop_last() =~= before);
        assert(after.last() == items[i as int]@);
        if i > 0 {
            text.append(", ");
        }
        text.append(items[i].as_str());
        assert(text@ =~= comma_separated(after));
        i = i + 1;
    }
    assert(texts(items@).take(i as int) =~= texts(items@));
    text
}

/// Writes the call `name::partial_<k>(a_1, ..., a_k)` for the `k` given
/// arguments, which keep their order.
pub fn render_call(name: &str, arguments: &Vec<String>) -> (text: String)
    ensures
        text@ == call_text(name@, texts(arguments@)),
{
    let mut text = name.to_owned();
    text.append("::");
    let partial = partial_name_string(arguments.len());
    text.append(partial.as_str());
    text.append("(");
    let list = join_comma_separated(arguments);
    text.append(list.as_str());
    text.append(")");
    text
}

} // verus!
