//! Wire codec for outbound CDP frames.
//!
//! Every command travels as one JSON text frame of the shape
//! `{"id": <n>, "method": "<name>", "params": {...}}`. The encoder below is
//! verified against a character-exact specification, including JSON string
//! escaping, so a caller's contract can pin down the full frame text.

use vstd::prelude::*;

use crate::text::{spec_dec, spec_dec_int, i64_to_dec, u64_to_dec};

verus! {

/// The character standing for hexadecimal digit `d`.
pub open spec fn hex_digit_char(d: nat) -> char
    recommends
        d < 16,
{
    if d < 10 {
        crate::text::dec_digit_char(d)
    } else if d == 10 {
        'a'
    } else if d == 11 {
        'b'
    } else if d == 12 {
        'c'
    } else if d == 13 {
        'd'
    } else if d == 14 {
        'e'
    } else {
        'f'
    }
}

/// JSON escape of one character: `"` and `\` get a backslash, control
/// characters become `\u00XX`, everything else stands for itself.
pub open spec fn esc_char(c: char) -> Seq<char> {
    if c == '"' {
        seq!['\\', '"']
    } else if c == '\\' {
        seq!['\\', '\\']
    } else if (c as int) < 32 {
        seq!['\\', 'u', '0', '0'] + seq![hex_digit_char((c as int / 16) as nat)]
            + seq![hex_digit_char((c as int % 16) as nat)]
    } else {
        seq![c]
    }
}

/// JSON escape of a whole string body.
pub open spec fn esc(s: Seq<char>) -> Seq<char>
    decreases s.len(),
{
    if s.len() == 0 {
        Seq::empty()
    } else {
        esc(s.drop_last()) + esc_char(s.last())
    }
}

/// A JSON string literal: quotes around the escaped body.
pub open spec fn json_string(s: Seq<char>) -> Seq<char> {
    seq!['"'] + esc(s) + seq!['"']
}

/// The JSON text of a boolean.
pub open spec fn json_bool(b: bool) -> Seq<char> {
    if b {
        seq!['t', 'r', 'u', 'e']
    } else {
        seq!['f', 'a', 'l', 's', 'e']
    }
}

/// One `"key":<value text>` object member.
pub open spec fn field_text(key: Seq<char>, val_text: Seq<char>) -> Seq<char> {
    json_string(key) + seq![':'] + val_text
}

/// The separator written before a new member: a comma unless the object body
/// is still empty.
pub open spec fn field_sep(body: Seq<char>) -> Seq<char> {
    if body.len() == 0 {
        Seq::empty()
    } else {
        seq![',']
    }
}

/// The full text of an outbound command frame: id, method, and the params
/// object built from `params_body` when there is one.
pub open spec fn spec_request(id: u64, method: Seq<char>, params_body: Option<Seq<char>>) -> Seq<
    char,
> {
    seq!['{', '"', 'i', 'd', '"', ':'] + spec_dec(id as nat) + seq![',', '"', 'm', 'e', 't', 'h',
        'o', 'd', '"', ':'] + json_string(method) + (match params_body {
        None => Seq::<char>::empty(),
        Some(body) => seq![',', '"', 'p', 'a', 'r', 'a', 'm', 's', '"', ':', '{'] + body
            + seq!['}'],
    }) + seq!['}']
}

/// The view of an optional borrowed params body.
pub open spec fn params_body_view(params: Option<&String>) -> Option<Seq<char>> {
    match params {
        None => None,
        Some(s) => Some(s@),
    }
}

fn hex_str(d: u32) -> (r: &'static str)
    requires
        d < 16,
    ensures
        r@ == seq![hex_digit_char(d as nat)],
{
    proof {
        reveal_strlit("0");
        reveal_strlit("1");
        reveal_strlit("2");
        reveal_strlit("3");
        reveal_strlit("4");
        reveal_strlit("5");
        reveal_strlit("6");
        reveal_strlit("7");
        reveal_strlit("8");
        reveal_strlit("9");
        reveal_strlit("a");
        reveal_strlit("b");
        reveal_strlit("c");
        reveal_strlit("d");
        reveal_strlit("e");
        reveal_strlit("f");
    }
    match d {
        0 => "0",
        1 => "1",
        2 => "2",
        3 => "3",
        4 => "4",
        5 => "5",
        6 => "6",
        7 => "7",
        8 => "8",
        9 => "9",
        10 => "a",
        11 => "b",
        12 => "c",
        13 => "d",
        14 => "e",
        _ => "f",
    }
}

/// Appends the JSON escape of `s` to `out`.
pub fn append_escaped(out: &mut String, s: &str)
    ensures
        final(out)@ == old(out)@ + esc(s@),
{
    let len = s.unicode_len();
    let mut i: usize = 0;
    while i < len
        invariant
            i <= len,
            len == s@.len(),
            out@ == old(out)@ + esc(s@.take(i as int)),
        decreases len - i,
    {
        let c = s.get_char(i);
        proof {
            assert(s@.take(i + 1).drop_last() =~= s@.take(i as int));
            assert(s@.take(i + 1).last() == s@[i as int]);
        }
        if c == '"' {
            proof {
                reveal_strlit("\\\"");
                assert("\\\""@ =~= esc_char(c));
            }
            out.append("\\\"");
        } else if c == '\\' {
            proof {
                reveal_strlit("\\\\");
                assert("\\\\"@ =~= esc_char(c));
            }
            out.append("\\\\");
        } else if (c as u32) < 32 {
            proof {
                reveal_strlit("\\u00");
            }
            out.append("\\u00");
            let v = c as u32;
            out.append(hex_str(v / 16));
            out.append(hex_str(v % 16));
            proof {
                assert(out@ =~= old(out)@ + esc(s@.take(i as int)) + esc_char(c));
            }
        } else {
            let one = s.substring_char(i, i + 1);
            proof {
                assert(one@ =~= seq![s@[i as int]]);
                assert(one@ =~= esc_char(c));
            }
            out.append(one);
        }
        i += 1;
    }
    proof {
        assert(s@.take(len as int) =~= s@);
    }
}

/// Appends a quoted, escaped JSON string to `out`.
pub fn append_json_string(out: &mut String, s: &str)
    ensures
        final(out)@ == old(out)@ + json_string(s@),
{
    proof {
        reveal_strlit("\"");
        assert("\""@ =~= seq!['"']);
    }
    out.append("\"");
    append_escaped(out, s);
    out.append("\"");
    proof {
        assert(out@ =~= old(out)@ + json_string(s@));
    }
}

/// Appends a `"key":"value"` member with a string value to the params body
/// `out`, separated by a comma from any member already there.
pub fn append_str_field(out: &mut String, key: &str, val: &str)
    ensures
        final(out)@ == old(out)@ + field_sep(old(out)@) + field_text(key@, json_string(val@)),
{
    append_field_sep(out);
    append_json_string(out, key);
    append_colon(out);
    append_json_string(out, val);
    proof {
        assert(out@ =~= old(out)@ + field_sep(old(out)@) + field_text(key@, json_string(val@)));
    }
}

/// Appends a `"key":<integer>` member to the params body `out`.
pub fn append_int_field(out: &mut String, key: &str, val: i64)
    ensures
        final(out)@ == old(out)@ + field_sep(old(out)@) + field_text(key@, spec_dec_int(val as int)),
{
    append_field_sep(out);
    append_json_string(out, key);
    append_colon(out);
    let text = i64_to_dec(val);
    out.append(text.as_str());
    proof {
        assert(out@ =~= old(out)@ + field_sep(old(out)@) + field_text(
            key@,
            spec_dec_int(val as int),
        ));
    }
}

/// Appends a `"key":<unsigned integer>` member to the params body `out`.
pub fn append_uint_field(out: &mut String, key: &str, val: u64)
    ensures
        final(out)@ == old(out)@ + field_sep(old(out)@) + field_text(key@, spec_dec(val as nat)),
{
    append_field_sep(out);
    append_json_string(out, key);
    append_colon(out);
    let text = u64_to_dec(val);
    out.append(text.as_str());
    proof {
        assert(out@ =~= old(out)@ + field_sep(old(out)@) + field_text(key@, spec_dec(val as nat)));
    }
}

/// Appends a `"key":true|false` member to the params body `out`.
pub fn append_bool_field(out: &mut String, key: &str, val: bool)
    ensures
        final(out)@ == old(out)@ + field_sep(old(out)@) + field_text(key@, json_bool(val)),
{
    append_field_sep(out);
    append_json_string(out, key);
    append_colon(out);
    if val {
        proof {
            reveal_strlit("true");
            assert("true"@ =~= json_bool(true));
        }
        out.append("true");
    } else {
        proof {
            reveal_strlit("false");
            assert("false"@ =~= json_bool(false));
        }
        out.append("false");
    }
    proof {
        assert(out@ =~= old(out)@ + field_sep(old(out)@) + field_text(key@, json_bool(val)));
    }
}

/// Appends a `"key":{<body>}` member with a nested object value to the
/// params body `out`.
pub fn append_obj_field(out: &mut String, key: &str, body: &String)
    ensures
        final(out)@ == old(out)@ + field_sep(old(out)@) + field_text(
            key@,
            seq!['{'] + body@ + seq!['}'],
        ),
{
    proof {
        reveal_strlit("{");
        reveal_strlit("}");
        assert("{"@ =~= seq!['{']);
        assert("}"@ =~= seq!['}']);
    }
    append_field_sep(out);
    append_json_string(out, key);
    append_colon(out);
    out.append("{");
    out.append(body.as_str());
    out.append("}");
    proof {
        assert(out@ =~= old(out)@ + field_sep(old(out)@) + field_text(
            key@,
            seq!['{'] + body@ + seq!['}'],
        ));
    }
}

fn append_field_sep(out: &mut String)
    ensures
        final(out)@ == old(out)@ + field_sep(old(out)@),
{
    if out.as_str().unicode_len() > 0 {
        proof {
            reveal_strlit(",");
            assert(","@ =~= seq![',']);
        }
        out.append(",");
    }
}

fn append_colon(out: &mut String)
    ensures
        final(out)@ == old(out)@ + seq![':'],
{
    proof {
        reveal_strlit(":");
        assert(":"@ =~= seq![':']);
    }
    out.append(":");
}

/// Encodes one outbound command frame.
///
/// The result is exactly the JSON text that `spec_request` describes:
/// `{"id":<id>,"method":"<method>"}` with a `"params":{...}` member holding
/// `params` as its body when one is given.
pub fn encode_request(id: u64, method: &str, params: Option<&String>) -> (r: String)
    ensures
        r@ == spec_request(id, method@, params_body_view(params)),
{
    proof {
        reveal_strlit("{\"id\":");
        reveal_strlit(",\"method\":");
        reveal_strlit(",\"params\":{");
        reveal_strlit("}");
        assert("{\"id\":"@ =~= seq!['{', '"', 'i', 'd', '"', ':']);
        assert(",\"method\":"@ =~= seq![',', '"', 'm', 'e', 't', 'h', 'o', 'd', '"', ':']);
        assert(",\"params\":{"@ =~= seq![',', '"', 'p', 'a', 'r', 'a', 'm', 's', '"', ':', '{']);
        assert("}"@ =~= seq!['}']);
    }
    let mut out = String::from_str("{\"id\":");
    let id_text = u64_to_dec(id);
    out.append(id_text.as_str());
    out.append(",\"method\":");
    append_json_string(&mut out, method);
    match params {
        None => {},
        Some(body) => {
            out.append(",\"params\":{");
            out.append(body.as_str());
            out.append("}");
        },
    }
    out.append("}");
    proof {
        assert(out@ =~= spec_request(id, method@, params_body_view(params)));
    }
    out
}

} // verus!
