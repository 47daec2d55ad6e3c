//! The JSON text of values: the canonical encoding that is hashed and sent.
//!
//! Objects list their members in a fixed order and without white space.
//! Strings are quoted by the `serde_json` crate; numbers are written in
//! decimal digits.

use crate::hash::{hex_digit, hex_digit_str};
use vstd::prelude::*;

verus! {

/// The JSON string literal that `serde_json` writes for a text: the text in
/// double quotes, with quotes, backslashes and control characters escaped.
pub uninterp spec fn json_quoted(text: Seq<char>) -> Seq<char>;

/// Calls `serde_json::to_string` on a string slice.
///
/// Trusted: the result is the JSON string literal of the text, a function
/// of the text alone. The call cannot fail on a string: the only errors of
/// the serializer come from the writer, and it writes into a byte vector.
#[verifier::external_body]
fn quote(text: &str) -> (r: String)
    ensures
        r@ == json_quoted(text@),
{
    serde_json::to_string(text).unwrap_or_default()
}

/// The decimal digits of a number, without sign or leading zeros.
pub open spec fn decimal_digits(n: nat) -> Seq<char>
    decreases n,
{
    if n < 10 {
        seq![hex_digit(n as int)]
    } else {
        decimal_digits(n / 10).push(hex_digit((n % 10) as int))
    }
}

/// The items, separated by commas.
pub open spec fn comma_joined(items: Seq<Seq<char>>) -> Seq<char>
    decreases items.len(),
{
    if items.len() == 0 {
        Seq::empty()
    } else if items.len() == 1 {
        items[0]
    } else {
        comma_joined(items.drop_last()) + ","@ + items.last()
    }
}

/// A JSON array of items that are JSON texts already.
pub open spec fn json_array(items: Seq<Seq<char>>) -> Seq<char> {
    "["@ + comma_joined(items) + "]"@
}

/// A member of a JSON object: the quoted name, a colon, the value's text.
pub open spec fn json_member(name: Seq<char>, value: Seq<char>) -> Seq<char> {
    json_quoted(name) + ":"@ + value
}

/// A JSON object of members that are JSON texts already.
pub open spec fn json_object(members: Seq<Seq<char>>) -> Seq<char> {
    "{"@ + comma_joined(members) + "}"@
}

/// The JSON string literal of `text`.
pub fn string_text(text: &str) -> (r: String)
    ensures
        r@ == json_quoted(text@),
{
    quote(text)
}

/// The JSON number of `n`.
pub fn number_text(n: u64) -> (r: String)
    ensures
        r@ == decimal_digits(n as nat),
    decreases n,
{
    if n < 10 {
        String::from_str(hex_digit_str(n as u8))
    } else {
        let mut text = number_text(n / 10);
        text.append(hex_digit_str((n % 10) as u8));
        text
    }
}

fn joined_text(items: &Vec<String>) -> (r: String)
    ensures
        r@ == comma_joined(items.deep_view()),
{
    let mut out = String::new();
    let mut i: usize = 0;
    while i < items.len()
        invariant
            i <= items.len(),
            out@ == comma_joined(items.deep_view().take(i as int)),
        decreases items.len() - i,
    {
        if i > 0 {
            out.append(",");
        }
        out.append(items[i].as_str());
        proof {
            let next = items.deep_view().take(i as int + 1);
            assert(next.drop_last() =~= items.deep_view().take(i as int));
            assert(next.last() == items[i as int]@);
            assert(out@ =~= comma_joined(next));
        }
        i += 1;
    }
    proof {
        assert(items.deep_view().take(items.len() as int) =~= items.deep_view());
    }
    out
}

/// The JSON array of `items`, each of them JSON text already.
pub fn array_text(items: &Vec<String>) -> (r: String)
    ensures
        r@ == json_array(items.deep_view()),
{
    let mut out = String::from_str("[");
    out.append(joined_text(items).as_str());
    out.append("]");
    out
}

/// The member `name` with the JSON text `value`.
pub fn member_text(name: &str, value: &str) -> (r: String)
    ensures
        r@ == json_member(name@, value@),
{
    let mut out = quote(name);
    out.append(":");
    out.append(value);
    out
}

/// The JSON object of `members`, each of them made by `member_text`.
pub fn object_text(members: &Vec<String>) -> (r: String)
    ensures
        r@ == json_object(members.deep_view()),
{
    let mut out = String::from_str("{");
    out.append(joined_text(members).as_str());
    out.append("}");
    out
}

} // verus!
