//! Pieces of JSON text: quoted strings, numbers and string members.

use vstd::prelude::*;
use vstd::string::*;

verus! {

/// The JSON string literal that serde_json writes for `s`, quotes included.
pub uninterp spec fn json_string_of(s: Seq<char>) -> Seq<char>;

/// The value of the string member `key` of the JSON object that `text`
/// holds; none where `text` is no JSON object, lacks the member, or the
/// member is no string.
pub uninterp spec fn string_member_of(text: Seq<char>, key: Seq<char>) -> Option<Seq<char>>;

/// Relies on serde_json::to_string: the JSON text of a string, which
/// depends on the string alone. Writing a `str` into memory cannot fail.
#[verifier::external_body]
pub fn json_quote(s: &str) -> (r: String)
    ensures
        r@ == json_string_of(s@),
{
    serde_json::to_string(s).unwrap_or_default()
}

/// Relies on serde_json::from_str into a `Value`, then `Value::get` and
/// `Value::as_str`: reads one string member of a JSON object.
#[verifier::external_body]
pub fn string_member(text: &str, key: &str) -> (r: Option<String>)
    ensures
        r matches Some(v) ==> string_member_of(text@, key@) == Some(v@),
        r is None ==> string_member_of(text@, key@) is None,
{
    serde_json::from_str::<serde_json::Value>(text).ok().and_then(
        |v| v.get(key).and_then(|m| m.as_str()).map(|m| m.to_string()),
    )
}

pub open spec fn digit_char(d: nat) -> char {
    if d == 0 {
        '0'
    } else if d == 1 {
        '1'
    } else if d == 2 {
        '2'
    } else if d == 3 {
        '3'
    } else if d == 4 {
        '4'
    } else if d == 5 {
        '5'
    } else if d == 6 {
        '6'
    } else if d == 7 {
        '7'
    } else if d == 8 {
        '8'
    } else {
        '9'
    }
}

/// The decimal digits of `n`, most significant first, without leading zeros.
pub open spec fn dec(n: nat) -> Seq<char>
    decreases n,
{
    if n < 10 {
        seq![digit_char(n)]
    } else {
        dec(n / 10).push(digit_char(n % 10))
    }
}

/// The decimal text of a signed integer.
pub open spec fn int_text(i: int) -> Seq<char> {
    if i < 0 {
        seq!['-'] + dec((-i) as nat)
    } else {
        dec(i as nat)
    }
}

/// A string or `null`.
pub open spec fn opt_string_json(o: Option<String>) -> Seq<char> {
    match o {
        Some(s) => json_string_of(s@),
        None => "null"@,
    }
}

/// A number or `null`.
pub open spec fn opt_number_json(o: Option<usize>) -> Seq<char> {
    match o {
        Some(n) => dec(n as nat),
        None => "null"@,
    }
}

fn digit_str(d: u128) -> (r: &'static str)
    requires
        d < 10,
    ensures
        r@ == seq![digit_char(d as nat)],
{
    proof {
        reveal_strlit("0");
        reveal_strlit("1");
        reveal_strlit("2");
        reveal_strlit("3");
        reveal_strlit("4");
        reveal_strlit("5");
        reveal_strlit("6");
        reveal_strlit("7");
        reveal_strlit("8");
        reveal_strlit("9");
    }
    if d == 0 {
        "0"
    } else if d == 1 {
        "1"
    } else if d == 2 {
        "2"
    } else if d == 3 {
        "3"
    } else if d == 4 {
        "4"
    } else if d == 5 {
        "5"
    } else if d == 6 {
        "6"
    } else if d == 7 {
        "7"
    } else if d == 8 {
        "8"
    } else {
        "9"
    }
}

/// The decimal text of `n`.
pub fn decimal(n: u128) -> (r: String)
    ensures
        r@ == dec(n as nat),
    decreases n,
{
    let d = digit_str(n % 10);
    if n < 10 {
        String::from_str(d)
    } else {
        let mut s = decimal(n / 10);
        s.append(d);
        s
    }
}

/// The decimal text of a signed integer, with a leading `-` when negative.
pub fn integer(i: i32) -> (r: String)
    ensures
        r@ == int_text(i as int),
{
    if i < 0 {
        let m: u128 = (0 - (i as i64)) as u128;
        let d = decimal(m);
        let mut s = String::from_str("-");
        proof {
            reveal_strlit("-");
        }
        s.append(d.as_str());
        s
    } else {
        decimal(i as u128)
    }
}

/// A quoted string, or `null` for none.
pub fn opt_quote(o: &Option<String>) -> (r: String)
    ensures
        r@ == opt_string_json(*o),
{
    match o {
        Some(s) => json_quote(s.as_str()),
        None => String::from_str("null"),
    }
}

/// A number, or `null` for none.
pub fn opt_number(o: Option<usize>) -> (r: String)
    ensures
        r@ == opt_number_json(o),
{
    match o {
        Some(n) => decimal(n as u128),
        None => String::from_str("null"),
    }
}

} // verus!
