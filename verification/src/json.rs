//! The JSON texts some parameters carry (ResourceSpace decodes them with
//! `json_decode`), and the test whether a reply body is JSON.

use vstd::prelude::*;

use crate::text::{push_char, push_str, spec_dec, spec_join, u64_to_dec};
use crate::wire::{opt_param, ParamView, Params};

verus! {

/// A lower-case hexadecimal digit.
pub open spec fn hex_lower(d: nat) -> char {
    if d < 10 {
        ((d + 48) as u32) as char
    } else {
        ((d + 87) as u32) as char
    }
}

/// How `serde_json` writes one character inside a string literal.
pub open spec fn json_escape_char(c: char) -> Seq<char> {
    let u = c as u32;
    if c == '"' {
        seq!['\\', '"']
    } else if c == '\\' {
        seq!['\\', '\\']
    } else if u == 0x08 {
        seq!['\\', 'b']
    } else if u == 0x09 {
        seq!['\\', 't']
    } else if u == 0x0a {
        seq!['\\', 'n']
    } else if u == 0x0c {
        seq!['\\', 'f']
    } else if u == 0x0d {
        seq!['\\', 'r']
    } else if u < 0x20 {
        seq!['\\', 'u', '0', '0', hex_lower((u / 16) as nat), hex_lower((u % 16) as nat)]
    } else {
        seq![c]
    }
}

/// The escaped contents of a JSON string literal.
pub open spec fn json_escape(s: Seq<char>) -> Seq<char>
    decreases s.len(),
{
    if s.len() == 0 {
        Seq::empty()
    } else {
        json_escape(s.drop_last()) + json_escape_char(s.last())
    }
}

/// A JSON string literal holding `s`.
pub open spec fn json_quote(s: Seq<char>) -> Seq<char> {
    seq!['"'] + json_escape(s) + seq!['"']
}

/// `serde_json::to_string` of a string slice.
///
/// Its source (`ser.rs`, the `ESCAPE` table and `format_escaped_str`)
/// writes `"`, then each character, escaping `"` and `\` with a backslash,
/// the control characters 0x08, 0x09, 0x0A, 0x0C and 0x0D as `\b \t \n \f
/// \r`, the other characters below 0x20 as `\u00` and two lower-case hex
/// digits, and then a closing `"`; writing a `str` has no failing path.
#[verifier::external_body]
pub fn json_string(s: &str) -> (r: String)
    ensures
        r@ == json_quote(s@),
{
    match serde_json::to_string(s) {
        Ok(t) => t,
        Err(_) => String::new(),
    }
}

/// Whether `serde_json` accepts a text as one JSON value.
pub uninterp spec fn spec_is_json(text: Seq<char>) -> bool;

/// Whether `serde_json::from_str::<serde_json::Value>` accepts `text`.
///
/// The contract names that outcome, which depends on the text alone, and
/// says no more of JSON syntax.
#[verifier::external_body]
pub fn is_json(text: &str) -> (r: bool)
    ensures
        r == spec_is_json(text@),
{
    serde_json::from_str::<serde_json::Value>(text).is_ok()
}

/// A value that `serde_json` writes as a JSON text.
pub trait JsonValue {
    /// The JSON text of the value.
    spec fn json(&self) -> Seq<char>;

    /// Writes the JSON text of the value.
    fn to_json(&self) -> (r: String)
        ensures
            r@ == self.json(),
    ;
}

impl JsonValue for u8 {
    open spec fn json(&self) -> Seq<char> {
        spec_dec(*self as nat)
    }

    fn to_json(&self) -> (r: String) {
        u64_to_dec(*self as u64)
    }
}

impl JsonValue for u32 {
    open spec fn json(&self) -> Seq<char> {
        spec_dec(*self as nat)
    }

    fn to_json(&self) -> (r: String) {
        u64_to_dec(*self as u64)
    }
}

impl JsonValue for bool {
    open spec fn json(&self) -> Seq<char> {
        if *self {
            "true"@
        } else {
            "false"@
        }
    }

    fn to_json(&self) -> (r: String) {
        if *self {
            String::from_str("true")
        } else {
            String::from_str("false")
        }
    }
}

impl JsonValue for String {
    open spec fn json(&self) -> Seq<char> {
        json_quote(self@)
    }

    fn to_json(&self) -> (r: String) {
        json_string(self.as_str())
    }
}

/// An absent optional value is `null`.
impl<T: JsonValue> JsonValue for Option<T> {
    open spec fn json(&self) -> Seq<char> {
        match self {
            Some(v) => v.json(),
            None => "null"@,
        }
    }

    fn to_json(&self) -> (r: String) {
        match self {
            Some(v) => v.to_json(),
            None => String::from_str("null"),
        }
    }
}

/// The JSON text of an optional value, if present.
pub open spec fn opt_json<T: JsonValue>(o: Option<T>) -> Option<Seq<char>> {
    match o {
        Some(v) => Some(v.json()),
        None => None,
    }
}

/// Appends `key` with the JSON text of `value` when the value is present.
pub fn push_opt_json<T: JsonValue>(p: &mut Params, key: &str, value: &Option<T>)
    ensures
        final(p)@ == old(p)@ + opt_param(key@, opt_json(*value)),
{
    match value {
        Some(v) => {
            p.push_text(key, v.to_json());
            assert(p@ =~= old(p)@ + opt_param(key@, opt_json(*value)));
        },
        None => {
            assert(p@ =~= old(p)@ + opt_param(key@, opt_json(*value)));
        },
    }
}

/// One member of a JSON object: the quoted key, `:` and the value's text.
pub open spec fn json_member(m: ParamView) -> Seq<char> {
    json_quote(m.0) + seq![':'] + m.1
}

/// A JSON object whose members, in order, are the given keys and value
/// texts.
pub open spec fn json_object(members: Seq<ParamView>) -> Seq<char> {
    seq!['{'] + spec_join(members.map_values(|m: ParamView| json_member(m)), seq![',']) + seq![
        '}',
    ]
}

/// A JSON array of the given value texts.
pub open spec fn json_array(items: Seq<Seq<char>>) -> Seq<char> {
    seq!['['] + spec_join(items, seq![',']) + seq![']']
}

/// Writes a JSON object from keys and the JSON texts of their values.
pub fn json_object_text(members: &Params) -> (r: String)
    ensures
        r@ == json_object(members@),
{
    let mut out = String::new();
    push_char(&mut out, '{');
    let n = members.len();
    let mut i: usize = 0;
    while i < n
        invariant
            i <= n,
            n == members@.len(),
            out@ == seq!['{'] + spec_join(
                members@.take(i as int).map_values(|m: ParamView| json_member(m)),
                seq![','],
            ),
        decreases n - i,
    {
        let (k, v) = members.get(i);
        let ghost prev = members@.take(i as int).map_values(|m: ParamView| json_member(m));
        let ghost next = members@.take(i + 1).map_values(|m: ParamView| json_member(m));
        assert(next.drop_last() =~= prev);
        assert(next.last() == json_member(members@[i as int]));
        let ghost before = out@;
        if i > 0 {
            push_char(&mut out, ',');
        } else {
            assert(next =~= seq![json_member(members@[0])]);
        }
        let key = json_string(k);
        push_str(&mut out, key.as_str());
        push_char(&mut out, ':');
        push_str(&mut out, v);
        assert(out@ =~= seq!['{'] + spec_join(next, seq![',']));
        i = i + 1;
    }
    assert(members@.take(n as int) =~= members@);
    push_char(&mut out, '}');
    out
}

/// The decimal texts of a list of numbers.
pub open spec fn dec_items(v: Seq<u32>) -> Seq<Seq<char>> {
    v.map_values(|x: u32| spec_dec(x as nat))
}

/// Writes a list of numbers as a JSON array, e.g. `[1,2,3]`.
pub fn json_u32_array(v: &Vec<u32>) -> (r: String)
    ensures
        r@ == json_array(dec_items(v@)),
{
    let mut out = String::new();
    push_char(&mut out, '[');
    let n = v.len();
    let mut i: usize = 0;
    while i < n
        invariant
            i <= n,
            n == v@.len(),
            out@ == seq!['['] + spec_join(dec_items(v@.take(i as int)), seq![',']),
        decreases n - i,
    {
        let ghost prev = dec_items(v@.take(i as int));
        let ghost next = dec_items(v@.take(i + 1));
        assert(next.drop_last() =~= prev);
        assert(next.last() == spec_dec(v@[i as int] as nat));
        if i > 0 {
            push_char(&mut out, ',');
        } else {
            assert(next =~= seq![spec_dec(v@[0] as nat)]);
        }
        let t = u64_to_dec(v[i] as u64);
        push_str(&mut out, t.as_str());
        assert(out@ =~= seq!['['] + spec_join(next, seq![',']));
        i = i + 1;
    }
    assert(v@.take(n as int) =~= v@);
    push_char(&mut out, ']');
    out
}

} // verus!
