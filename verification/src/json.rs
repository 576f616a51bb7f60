//! JSON for the wire: a verified encoder for the request bodies this
//! client sends, and a thin trusted reader over serde_json for the
//! response bodies it receives.

use vstd::prelude::*;
use vstd::string::StrSliceExecFns;
use vstd::string::StringExecFns;
use crate::text::dec_digit;
use crate::text::dec_str;
use crate::text::u64_to_string;

verus! {

// ---------------------------------------------------------------------------
// Reading responses (trusted, backed by serde_json)
// ---------------------------------------------------------------------------
/// The string that a JSON document holds at a JSON-pointer path, if the
/// document parses and the path leads to a string value.
pub uninterp spec fn json_str_of(doc: Seq<u8>, pointer: Seq<char>) -> Option<Seq<char>>;

/// Whether the bytes parse as one JSON document.
pub uninterp spec fn json_ok_of(doc: Seq<u8>) -> bool;

/// Relies on serde_json::from_slice and serde_json::Value::pointer
/// (RFC 6901) followed by Value::as_str: looks a string value up at a
/// fixed path in a JSON document.  The result is a function of the two
/// arguments alone.
#[verifier::external_body]
pub fn json_string_at(doc: &[u8], pointer: &str) -> (r: Option<String>)
    ensures
        match r {
            Some(s) => json_str_of(doc@, pointer@) == Some(s@),
            None => json_str_of(doc@, pointer@) is None,
        },
{
    let v: serde_json::Value = match serde_json::from_slice(doc) {
        Ok(v) => v,
        Err(_) => return None,
    };
    match v.pointer(pointer).and_then(|x| x.as_str()) {
        Some(s) => Some(s.to_string()),
        None => None,
    }
}

/// Relies on serde_json::from_slice: whether the bytes are one
/// well-formed JSON document.  The result is a function of the bytes
/// alone.
#[verifier::external_body]
pub fn json_parses(doc: &[u8]) -> (r: bool)
    ensures
        r == json_ok_of(doc@),
{
    serde_json::from_slice::<serde_json::Value>(doc).is_ok()
}

// ---------------------------------------------------------------------------
// Writing requests (verified)
// ---------------------------------------------------------------------------
/// The character for one hexadecimal digit, lower case.
pub open spec fn hex_digit(d: nat) -> char {
    if d < 10 {
        dec_digit(d)
    } else if d == 10 {
        'a'
    } else if d == 11 {
        'b'
    } else if d == 12 {
        'c'
    } else if d == 13 {
        'd'
    } else if d == 14 {
        'e'
    } else {
        'f'
    }
}

/// How one character is written inside a JSON string literal: quote and
/// backslash get a backslash escape, control characters get their short
/// escape or a \u00XX escape, everything else stands as itself.
pub open spec fn escape_char_seq(c: char) -> Seq<char> {
    if c == '"' {
        seq!['\\', '"']
    } else if c == '\\' {
        seq!['\\', '\\']
    } else if c == '\u{8}' {
        seq!['\\', 'b']
    } else if c == '\t' {
        seq!['\\', 't']
    } else if c == '\n' {
        seq!['\\', 'n']
    } else if c == '\u{c}' {
        seq!['\\', 'f']
    } else if c == '\r' {
        seq!['\\', 'r']
    } else if (c as u32) < 0x20 {
        seq!['\\', 'u', '0', '0', hex_digit((c as u32 / 16) as nat), hex_digit(
            (c as u32 % 16) as nat,
        )]
    } else {
        seq![c]
    }
}

/// The body of a JSON string literal for the given text.
pub open spec fn json_escape(s: Seq<char>) -> Seq<char>
    decreases s.len(),
{
    if s.len() == 0 {
        Seq::empty()
    } else {
        json_escape(s.drop_last()) + escape_char_seq(s.last())
    }
}

/// A complete JSON string literal: quotes around the escaped text.
pub open spec fn quoted(s: Seq<char>) -> Seq<char> {
    seq!['"'] + json_escape(s) + seq!['"']
}

/// One hexadecimal digit as a string slice.
fn hex_digit_str(d: u64) -> (r: &'static str)
    requires
        d < 16,
    ensures
        r@ == seq![hex_digit(d as nat)],
{
    let digits = "0123456789abcdef";
    proof {
        reveal_strlit("0123456789abcdef");
    }
    let r = digits.substring_char(d as usize, d as usize + 1);
    proof {
        assert(r@ =~= seq![hex_digit(d as nat)]);
    }
    r
}

/// Appends the escaped form of the text, without the surrounding quotes.
pub fn append_escaped(out: &mut String, s: &str)
    ensures
        final(out)@ == old(out)@ + json_escape(s@),
{
    let ls = s.unicode_len();
    let mut i: usize = 0;
    while i < ls
        invariant
            i <= ls,
            ls == s@.len(),
            out@ == old(out)@ + json_escape(s@.take(i as int)),
        decreases ls - i,
    {
        let c = s.get_char(i);
        if c == '"' {
            out.append("\\\"");
            proof {
                reveal_strlit("\\\"");
                assert(("\\\"")@ =~= escape_char_seq(c));
            }
        } else if c == '\\' {
            out.append("\\\\");
            proof {
                reveal_strlit("\\\\");
                assert(("\\\\")@ =~= escape_char_seq(c));
            }
        } else if c == '\u{8}' {
            out.append("\\b");
            proof {
                reveal_strlit("\\b");
                assert(("\\b")@ =~= escape_char_seq(c));
            }
        } else if c == '\t' {
            out.append("\\t");
            proof {
                reveal_strlit("\\t");
                assert(("\\t")@ =~= escape_char_seq(c));
            }
        } else if c == '\n' {
            out.append("\\n");
            proof {
                reveal_strlit("\\n");
                assert(("\\n")@ =~= escape_char_seq(c));
            }
        } else if c == '\u{c}' {
            out.append("\\f");
            proof {
                reveal_strlit("\\f");
                assert(("\\f")@ =~= escape_char_seq(c));
            }
        } else if c == '\r' {
            out.append("\\r");
            proof {
                reveal_strlit("\\r");
                assert(("\\r")@ =~= escape_char_seq(c));
            }
        } else if (c as u32) < 0x20 {
            out.append("\\u00");
            out.append(hex_digit_str((c as u32 / 16) as u64));
            out.append(hex_digit_str((c as u32 % 16) as u64));
            proof {
                reveal_strlit("\\u00");
                assert(("\\u00")@ + seq![hex_digit((c as u32 / 16) as nat)] + seq![
                    hex_digit((c as u32 % 16) as nat),
                ] =~= escape_char_seq(c));
            }
        } else {
            let piece = s.substring_char(i, i + 1);
            out.append(piece);
            proof {
                assert(piece@ =~= escape_char_seq(c));
            }
        }
        proof {
            assert(s@.take(i + 1 as int).drop_last() =~= s@.take(i as int));
            assert(s@.take(i + 1 as int).last() == s@[i as int]);
            assert(out@ == old(out)@ + json_escape(s@.take(i + 1 as int)));
        }
        i += 1;
    }
    proof {
        assert(s@.take(ls as int) =~= s@);
    }
}

/// Appends a complete JSON string literal for the text.
pub fn append_quoted(out: &mut String, s: &str)
    ensures
        final(out)@ == old(out)@ + quoted(s@),
{
    out.append("\"");
    append_escaped(out, s);
    out.append("\"");
    proof {
        reveal_strlit("\"");
        assert(("\"")@ =~= seq!['"']);
        assert(out@ =~= old(out)@ + quoted(s@));
    }
}

/// How a JSON boolean is written.
pub open spec fn bool_json(b: bool) -> Seq<char> {
    if b {
        "true"@
    } else {
        "false"@
    }
}

/// The decimal rendering of a signed number.
pub open spec fn int_str(n: int) -> Seq<char> {
    if n < 0 {
        seq!['-'] + dec_str((-n) as nat)
    } else {
        dec_str(n as nat)
    }
}

/// Renders a signed number in decimal.
pub fn i64_to_string(n: i64) -> (r: String)
    ensures
        r@ == int_str(n as int),
{
    if n < 0 {
        let mut s = String::new();
        s.append("-");
        let m: u64 = (-(n as i128)) as u64;
        let d = u64_to_string(m);
        s.append(d.as_str());
        proof {
            reveal_strlit("-");
            assert(("-")@ =~= seq!['-']);
            assert(m as nat == (-(n as int)) as nat);
            assert(s@ =~= int_str(n as int));
        }
        s
    } else {
        u64_to_string(n as u64)
    }
}

/// How the sampling temperature is written: hundredths rendered as a
/// decimal fraction with the shortest fractional part, at least one
/// digit.
pub open spec fn temperature_json(h: nat) -> Seq<char> {
    dec_str(h / 100) + seq!['.'] + (if h % 100 == 0 {
        seq!['0']
    } else if h % 10 == 0 {
        seq![dec_digit((h % 100) / 10)]
    } else {
        seq![dec_digit((h % 100) / 10), dec_digit(h % 10)]
    })
}

/// Renders a temperature given in hundredths, e.g. 70 as "0.7".
pub fn temperature_to_string(h: u32) -> (r: String)
    ensures
        r@ == temperature_json(h as nat),
{
    let mut s = u64_to_string((h / 100) as u64);
    s.append(".");
    proof {
        reveal_strlit(".");
        assert((".")@ =~= seq!['.']);
    }
    let frac = h % 100;
    if frac == 0 {
        s.append("0");
        proof {
            reveal_strlit("0");
            assert(("0")@ =~= seq!['0']);
            assert(dec_digit(0) == '0');
            assert(s@ =~= temperature_json(h as nat));
        }
    } else if frac % 10 == 0 {
        let d = u64_to_string((frac / 10) as u64);
        s.append(d.as_str());
        proof {
            assert(dec_str((frac / 10) as nat) =~= seq![dec_digit(((h as nat) % 100) / 10)]);
            assert(s@ =~= temperature_json(h as nat));
        }
    } else {
        let d1 = u64_to_string((frac / 10) as u64);
        s.append(d1.as_str());
        let d2 = u64_to_string((frac % 10) as u64);
        s.append(d2.as_str());
        proof {
            assert(dec_str((frac / 10) as nat) =~= seq![dec_digit(((h as nat) % 100) / 10)]);
            assert(dec_str((frac % 10) as nat) =~= seq![dec_digit((h as nat) % 10)]);
            assert(s@ =~= temperature_json(h as nat));
        }
    }
    s
}

/// One role/content pair as a JSON object.
pub open spec fn message_json(role: Seq<char>, content: Seq<char>) -> Seq<char> {
    "{\"role\":"@ + quoted(role) + ",\"content\":"@ + quoted(content) + "}"@
}

/// A sequence of role/content pairs as the inside of a JSON array,
/// comma-separated.
pub open spec fn messages_json(msgs: Seq<(Seq<char>, Seq<char>)>) -> Seq<char>
    decreases msgs.len(),
{
    if msgs.len() == 0 {
        Seq::empty()
    } else if msgs.len() == 1 {
        message_json(msgs[0].0, msgs[0].1)
    } else {
        messages_json(msgs.drop_last()) + seq![','] + message_json(msgs.last().0, msgs.last().1)
    }
}

/// The complete chat-completion request body, as both backends shape
/// it: model id, message array, sampling temperature, optional token
/// cap, stream flag.
pub open spec fn chat_body_json(
    model: Seq<char>,
    msgs: Seq<(Seq<char>, Seq<char>)>,
    temperature_hundredths: nat,
    max_tokens: Option<int>,
    stream: bool,
) -> Seq<char> {
    "{\"model\":"@ + quoted(model) + ",\"messages\":["@ + messages_json(msgs)
        + "],\"temperature\":"@ + temperature_json(temperature_hundredths) + ",\"max_tokens\":"@ + (
    match max_tokens {
        Some(n) => int_str(n),
        None => "null"@,
    }) + ",\"stream\":"@ + bool_json(stream) + "}"@
}

/// Serialises one chat-completion request body; the shape both
/// backends send.
pub fn encode_chat_body(
    model: &str,
    messages: &Vec<crate::deepseek::ChatMessage>,
    temperature_hundredths: u32,
    max_tokens: Option<i32>,
    stream: bool,
) -> (r: String)
    ensures
        r@ == chat_body_json(
            model@,
            crate::deepseek::msgs_view(messages@),
            temperature_hundredths as nat,
            (match max_tokens {
                Some(n) => Some(n as int),
                None => None,
            }),
            stream,
        ),
{
    let ghost w = crate::deepseek::msgs_view(messages@);
    let mut out = String::new();
    out.append("{\"model\":");
    append_quoted(&mut out, model);
    out.append(",\"messages\":[");
    let n = messages.len();
    let mut i: usize = 0;
    while i < n
        invariant
            i <= n,
            n == messages@.len(),
            w == crate::deepseek::msgs_view(messages@),
            w.len() == n,
            out@ == "{\"model\":"@ + quoted(model@) + ",\"messages\":["@ + messages_json(
                w.take(i as int),
            ),
        decreases n - i,
    {
        if i > 0 {
            out.append(",");
        }
        let m = &messages[i];
        append_message(&mut out, m.role.as_str(), m.content.as_str());
        proof {
            reveal_strlit(",");
            assert((",")@ =~= seq![',']);
            assert(w[i as int] == messages@[i as int]@);
            assert(w.take(i + 1 as int).drop_last() =~= w.take(i as int));
            assert(w.take(i + 1 as int).last() == w[i as int]);
            if i == 0 {
                assert(messages_json(w.take(1)) == message_json(w[0].0, w[0].1));
                assert(messages_json(w.take(0 as int)) == Seq::<char>::empty());
                assert(out@ =~= "{\"model\":"@ + quoted(model@) + ",\"messages\":["@
                    + messages_json(w.take(i + 1 as int)));
            } else {
                assert(out@ =~= "{\"model\":"@ + quoted(model@) + ",\"messages\":["@
                    + messages_json(w.take(i + 1 as int)));
            }
        }
        i += 1;
    }
    proof {
        assert(w.take(n as int) =~= w);
    }
    out.append("],\"temperature\":");
    let t = temperature_to_string(temperature_hundredths);
    out.append(t.as_str());
    out.append(",\"max_tokens\":");
    match max_tokens {
        Some(v) => {
            let s = i64_to_string(v as i64);
            out.append(s.as_str());
        },
        None => {
            out.append("null");
        },
    }
    out.append(",\"stream\":");
    if stream {
        out.append("true");
    } else {
        out.append("false");
    }
    out.append("}");
    proof {
        assert(out@ =~= chat_body_json(
            model@,
            w,
            temperature_hundredths as nat,
            (match max_tokens {
                Some(n_) => Some(n_ as int),
                None => None,
            }),
            stream,
        ));
    }
    out
}

/// Appends one role/content pair as a JSON object.
pub fn append_message(out: &mut String, role: &str, content: &str)
    ensures
        final(out)@ == old(out)@ + message_json(role@, content@),
{
    out.append("{\"role\":");
    append_quoted(out, role);
    out.append(",\"content\":");
    append_quoted(out, content);
    out.append("}");
    proof {
        assert(out@ =~= old(out)@ + message_json(role@, content@));
    }
}

} // verus!
