//! The names of the identifiers and of the host function behind a value that
//! the host exposes.

use vstd::prelude::*;
use vstd::string::StringExecFns;

verus! {

/// The character that writes a single decimal digit.
pub open spec fn digit(d: nat) -> char {
    if d == 0 {
        '0'
    } else if d == 1 {
        '1'
    } else if d == 2 {
        '2'
    } else if d == 3 {
        '3'
    } else if d == 4 {
        '4'
    } else if d == 5 {
        '5'
    } else if d == 6 {
        '6'
    } else if d == 7 {
        '7'
    } else if d == 8 {
        '8'
    } else {
        '9'
    }
}

/// A number written in base ten, without leading zeros.
pub open spec fn decimal(n: nat) -> Seq<char>
    decreases n,
{
    if n < 10 {
        seq![digit(n)]
    } else {
        decimal(n / 10).push(digit(n % 10))
    }
}

/// The name of the host function that stands behind the exposed value
/// `ident`.
pub open spec fn foreign_symbol_name(ident: Seq<char>) -> Seq<char> {
    "roc_fx_"@ + ident
}

/// The name of the closure that wraps the host call of `ident`.
pub open spec fn effect_closure_name(ident: Seq<char>) -> Seq<char> {
    "effect_closure_"@ + ident
}

/// The name of the argument at place `index` of the exposed function
/// `ident`.
pub open spec fn closure_arg_name(ident: Seq<char>, index: nat) -> Seq<char> {
    "closure_arg_"@ + ident + "_"@ + decimal(index)
}

fn digit_str(d: usize) -> (s: &'static str)
    requires
        d < 10,
    ensures
        s@ == seq![digit(d as nat)],
{
    proof {
        reveal_strlit("0");
        reveal_strlit("1");
        reveal_strlit("2");
        reveal_strlit("3");
        reveal_strlit("4");
        reveal_strlit("5");
        reveal_strlit("6");
        reveal_strlit("7");
        reveal_strlit("8");
        reveal_strlit("9");
    }
    let s = if d == 0 {
        "0"
    } else if d == 1 {
        "1"
    } else if d == 2 {
        "2"
    } else if d == 3 {
        "3"
    } else if d == 4 {
        "4"
    } else if d == 5 {
        "5"
    } else if d == 6 {
        "6"
    } else if d == 7 {
        "7"
    } else if d == 8 {
        "8"
    } else {
        "9"
    };
    assert(s@ =~= seq![digit(d as nat)]);
    s
}

/// Writes `n` in base ten at the end of `out`.
pub fn push_decimal(out: &mut String, n: usize)
    ensures
        final(out)@ == old(out)@ + decimal(n as nat),
    decreases n,
{
    if n >= 10 {
        push_decimal(out, n / 10);
    }
    out.append(digit_str(n % 10));
    assert(out@ =~= old(out)@ + decimal(n as nat));
}

pub fn make_foreign_symbol_name(ident: &str) -> (name: String)
    ensures
        name@ == foreign_symbol_name(ident@),
{
    let mut name = String::from_str("roc_fx_");
    name.append(ident);
    name
}

pub fn make_effect_closure_name(ident: &str) -> (name: String)
    ensures
        name@ == effect_closure_name(ident@),
{
    let mut name = String::from_str("effect_closure_");
    name.append(ident);
    name
}

pub fn make_closure_arg_name(ident: &str, index: usize) -> (name: String)
    ensures
        name@ == closure_arg_name(ident@, index as nat),
{
    let mut name = String::from_str("closure_arg_");
    name.append(ident);
    name.append("_");
    push_decimal(&mut name, index);
    name
}

} // verus!
