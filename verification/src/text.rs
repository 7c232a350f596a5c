//! Numbers and strings as text.

use vstd::prelude::*;
use vstd::string::StringExecFns;
use crate::values::{views, separated, join};

verus! {

/// The character of a decimal digit.
pub open spec fn digit(d: nat) -> char
    recommends
        d < 10,
{
    if d == 0 {
        '0'
    } else if d == 1 {
        '1'
    } else if d == 2 {
        '2'
    } else if d == 3 {
        '3'
    } else if d == 4 {
        '4'
    } else if d == 5 {
        '5'
    } else if d == 6 {
        '6'
    } else if d == 7 {
        '7'
    } else if d == 8 {
        '8'
    } else {
        '9'
    }
}

/// A natural number in decimal digits, without leading zeros.
pub open spec fn decimal(n: nat) -> Seq<char>
    decreases n,
{
    if n < 10 {
        seq![digit(n)]
    } else {
        decimal(n / 10).push(digit(n % 10))
    }
}

/// An integer in decimal digits, after a minus sign if it is negative.
pub open spec fn signed_decimal(i: int) -> Seq<char> {
    if i < 0 {
        seq!['-'] + decimal((-i) as nat)
    } else {
        decimal(i as nat)
    }
}

/// The text of `true` and of `false`.
pub open spec fn bool_text(b: bool) -> Seq<char> {
    if b {
        "true"@
    } else {
        "false"@
    }
}

/// What `Debug` prints for a string: the string between double quotes, with
/// the characters escaped that cannot stand there as they are.
pub uninterp spec fn str_debug(s: Seq<char>) -> Seq<char>;

/// The `Debug` form of a string, as `format!("{:?}", s)` gives it. The
/// contract only names the result.
#[verifier::external_body]
pub(crate) fn debug_str(s: &str) -> (r: String)
    ensures
        r@ == str_debug(s@),
{
    format!("{:?}", s)
}

fn digit_str(d: u64) -> (s: &'static str)
    requires
        d < 10,
    ensures
        s@ == seq![digit(d as nat)],
{
    proof {
        reveal_strlit("0");
        reveal_strlit("1");
        reveal_strlit("2");
        reveal_strlit("3");
        reveal_strlit("4");
        reveal_strlit("5");
        reveal_strlit("6");
        reveal_strlit("7");
        reveal_strlit("8");
        reveal_strlit("9");
    }
    let s = if d == 0 {
        "0"
    } else if d == 1 {
        "1"
    } else if d == 2 {
        "2"
    } else if d == 3 {
        "3"
    } else if d == 4 {
        "4"
    } else if d == 5 {
        "5"
    } else if d == 6 {
        "6"
    } else if d == 7 {
        "7"
    } else if d == 8 {
        "8"
    } else {
        "9"
    };
    assert(s@ =~= seq![digit(d as nat)]);
    s
}

/// A number in decimal digits.
pub fn u64_to_decimal(n: u64) -> (r: String)
    ensures
        r@ == decimal(n as nat),
{
    let mut out = String::from_str(digit_str(n % 10));
    let mut rest: u64 = n / 10;
    assert(decimal(n as nat) =~= if rest == 0 {
        out@
    } else {
        decimal(rest as nat) + out@
    });
    while rest > 0
        invariant
            decimal(n as nat) == if rest == 0 {
                out@
            } else {
                decimal(rest as nat) + out@
            },
        decreases rest,
    {
        let ghost before = out@;
        let ghost prev = rest;
        out = String::from_str(digit_str(rest % 10)).concat(out.as_str());
        rest = rest / 10;
        assert(decimal(prev as nat) + before =~= if rest == 0 {
            out@
        } else {
            decimal(rest as nat) + out@
        });
    }
    out
}

/// A number in decimal digits, after a minus sign if it is negative.
pub fn i64_to_decimal(n: i64) -> (r: String)
    ensures
        r@ == signed_decimal(n as int),
{
    if n < 0 {
        let magnitude: u64 = if n == i64::MIN {
            9223372036854775808u64
        } else {
            (-n) as u64
        };
        proof {
            reveal_strlit("-");
        }
        let out = String::from_str("-").concat(u64_to_decimal(magnitude).as_str());
        assert(out@ =~= signed_decimal(n as int));
        out
    } else {
        u64_to_decimal(n as u64)
    }
}

/// The text of `true` or of `false`.
pub fn bool_to_text(b: bool) -> (r: String)
    ensures
        r@ == bool_text(b),
{
    if b {
        String::from_str("true")
    } else {
        String::from_str("false")
    }
}

/// The views of named fields: each name with its value.
pub open spec fn field_views(fields: Seq<(&'static str, String)>) -> Seq<(Seq<char>, Seq<char>)> {
    Seq::new(fields.len(), |i: int| (fields[i].0@, fields[i].1@))
}

/// A field as `Debug` lays it out: the name, a colon, the value.
pub open spec fn field_debug(field: (Seq<char>, Seq<char>)) -> Seq<char> {
    field.0 + ": "@ + field.1
}

/// A struct as `Debug` lays it out on one line: the name and, between
/// braces, the fields with a comma between each two. A struct without
/// fields is its name.
pub open spec fn struct_debug(name: Seq<char>, fields: Seq<(Seq<char>, Seq<char>)>) -> Seq<char> {
    if fields.len() == 0 {
        name
    } else {
        name + " { "@ + separated(Seq::new(fields.len(), |i: int| field_debug(fields[i])), ", "@)
            + " }"@
    }
}

/// A variant or a tuple struct with one value, as `Debug` lays it out: the
/// name and the value between parentheses.
pub open spec fn tuple_debug(name: Seq<char>, value: Seq<char>) -> Seq<char> {
    name + "("@ + value + ")"@
}

/// A list as `Debug` lays it out on one line: the items between square
/// brackets, with a comma and a space between each two.
pub open spec fn list_debug(items: Seq<Seq<char>>) -> Seq<char> {
    "["@ + separated(items, ", "@) + "]"@
}

/// A struct on one line, from its name and the texts of its fields.
pub fn debug_struct(name: &str, fields: &Vec<(&'static str, String)>) -> (r: String)
    ensures
        r@ == struct_debug(name@, field_views(fields@)),
{
    let mut out = String::from_str(name);
    if fields.len() == 0 {
        return out;
    }
    let mut parts: Vec<String> = Vec::new();
    let mut i: usize = 0;
    while i < fields.len()
        invariant
            i <= fields.len(),
            parts.len() == i,
            forall|j: int| 0 <= j < i ==> parts[j]@ == field_debug(field_views(fields@)[j]),
        decreases fields.len() - i,
    {
        let mut part = String::from_str(fields[i].0);
        part.append(": ");
        part.append(fields[i].1.as_str());
        parts.push(part);
        i += 1;
    }
    assert(views(parts@) =~= Seq::new(
        field_views(fields@).len(),
        |i: int| field_debug(field_views(fields@)[i]),
    ));
    out.append(" { ");
    out.append(join(&parts, ", ").as_str());
    out.append(" }");
    out
}

/// A variant or a tuple struct with one value, from its name and the text
/// of the value.
pub fn debug_tuple(name: &str, value: &str) -> (r: String)
    ensures
        r@ == tuple_debug(name@, value@),
{
    let mut out = String::from_str(name);
    out.append("(");
    out.append(value);
    out.append(")");
    out
}

/// A list on one line, from the texts of its items.
pub fn debug_list(items: &Vec<String>) -> (r: String)
    ensures
        r@ == list_debug(views(items@)),
{
    let mut out = String::from_str("[");
    out.append(join(items, ", ").as_str());
    out.append("]");
    out
}

} // verus!
