//! The temporary-credential record and its JSON wire form.
//!
//! The federation endpoint expects the credentials as a JSON object with
//! exactly the keys `sessionId`, `sessionKey` and `sessionToken`; the key
//! names are part of the wire contract. The object is framed here, with
//! standard JSON string escaping, so that the exact output is stated.

use vstd::prelude::*;
use crate::strutil::digit_char;
use crate::strutil::hex_upper_char;
use crate::strutil::push_char;

verus! {

/// Temporary credentials returned by a role assumption, under the field
/// names the federation endpoint expects.
#[derive(Debug, PartialEq, Eq)]
pub struct UrlCredentials {
    pub session_id: String,
    pub session_key: String,
    pub session_token: String,
}

/// The JSON escape of one character inside a quoted string: quote and
/// backslash are escaped, control characters get their short escape or a
/// `\u00XX` escape, and everything else stands as itself.
pub open spec fn json_escaped_char(c: char) -> Seq<char> {
    if c == '"' {
        seq!['\\', '"']
    } else if c == '\\' {
        seq!['\\', '\\']
    } else if c == '\u{8}' {
        seq!['\\', 'b']
    } else if c == '\u{c}' {
        seq!['\\', 'f']
    } else if c == '\n' {
        seq!['\\', 'n']
    } else if c == '\r' {
        seq!['\\', 'r']
    } else if c == '\t' {
        seq!['\\', 't']
    } else if (c as int) < 0x20 {
        seq!['\\', 'u', '0', '0', digit_char(c as int / 16), digit_char(c as int % 16)]
    } else {
        seq![c]
    }
}

/// The JSON escape of a whole character sequence.
pub open spec fn json_escaped(s: Seq<char>) -> Seq<char>
    decreases s.len(),
{
    if s.len() == 0 {
        Seq::empty()
    } else {
        json_escaped(s.drop_last()) + json_escaped_char(s.last())
    }
}

/// A JSON string: the escaped characters between double quotes.
pub open spec fn json_quoted(s: Seq<char>) -> Seq<char> {
    seq!['"'] + json_escaped(s) + seq!['"']
}

/// The serialized credential object, with the three fixed keys in a fixed
/// order and each value escaped as a JSON string.
pub open spec fn credentials_json(c: UrlCredentials) -> Seq<char> {
    "{\"sessionId\":"@ + json_quoted(c.session_id@) + ",\"sessionKey\":"@ + json_quoted(
        c.session_key@,
    ) + ",\"sessionToken\":"@ + json_quoted(c.session_token@) + "}"@
}

/// Appends the JSON escape of one character.
fn push_json_escaped_char(out: &mut String, c: char)
    ensures
        final(out)@ == old(out)@ + json_escaped_char(c),
{
    if c == '"' {
        push_char(out, '\\');
        push_char(out, '"');
        proof {
            assert(out@ =~= old(out)@ + json_escaped_char(c));
        }
    } else if c == '\\' {
        push_char(out, '\\');
        push_char(out, '\\');
        proof {
            assert(out@ =~= old(out)@ + json_escaped_char(c));
        }
    } else if c == '\u{8}' {
        push_char(out, '\\');
        push_char(out, 'b');
        proof {
            assert(out@ =~= old(out)@ + json_escaped_char(c));
        }
    } else if c == '\u{c}' {
        push_char(out, '\\');
        push_char(out, 'f');
        proof {
            assert(out@ =~= old(out)@ + json_escaped_char(c));
        }
    } else if c == '\n' {
        push_char(out, '\\');
        push_char(out, 'n');
        proof {
            assert(out@ =~= old(out)@ + json_escaped_char(c));
        }
    } else if c == '\r' {
        push_char(out, '\\');
        push_char(out, 'r');
        proof {
            assert(out@ =~= old(out)@ + json_escaped_char(c));
        }
    } else if c == '\t' {
        push_char(out, '\\');
        push_char(out, 't');
        proof {
            assert(out@ =~= old(out)@ + json_escaped_char(c));
        }
    } else {
        let u = c as u32;
        if u < 0x20 {
            push_char(out, '\\');
            push_char(out, 'u');
            push_char(out, '0');
            push_char(out, '0');
            push_char(out, hex_upper_char(u / 16));
            push_char(out, hex_upper_char(u % 16));
            proof {
                assert(out@ =~= old(out)@ + json_escaped_char(c));
            }
        } else {
            push_char(out, c);
            proof {
                assert(out@ =~= old(out)@ + json_escaped_char(c));
            }
        }
    }
}

/// Appends a value as a quoted, escaped JSON string.
fn push_json_quoted(out: &mut String, s: &str)
    ensures
        final(out)@ == old(out)@ + json_quoted(s@),
{
    let n = s.unicode_len();
    push_char(out, '"');
    let ghost opened = out@;
    let mut i: usize = 0;
    while i < n
        invariant
            i <= n,
            n == s@.len(),
            opened == old(out)@.push('"'),
            out@ == opened + json_escaped(s@.take(i as int)),
        decreases n - i,
    {
        let c = s.get_char(i);
        push_json_escaped_char(out, c);
        proof {
            assert(s@.take(i + 1).drop_last() =~= s@.take(i as int));
            assert(s@.take(i + 1).last() == c);
        }
        i = i + 1;
    }
    push_char(out, '"');
    proof {
        assert(s@.take(n as int) =~= s@);
        assert(out@ =~= old(out)@ + json_quoted(s@));
    }
}

impl UrlCredentials {
    /// Gathers the three parts of a temporary credential set.
    pub fn new(id: String, key: String, token: String) -> (c: Self)
        ensures
            c.session_id == id,
            c.session_key == key,
            c.session_token == token,
    {
        Self { session_id: id, session_key: key, session_token: token }
    }

    /// Serializes the credentials into the federation JSON object.
    pub fn to_json(&self) -> (r: String)
        ensures
            r@ == credentials_json(*self),
    {
        let mut out = String::from_str("{\"sessionId\":");
        push_json_quoted(&mut out, self.session_id.as_str());
        out.append(",\"sessionKey\":");
        push_json_quoted(&mut out, self.session_key.as_str());
        out.append(",\"sessionToken\":");
        push_json_quoted(&mut out, self.session_token.as_str());
        out.append("}");
        proof {
            assert(out@ =~= credentials_json(*self));
        }
        out
    }
}

} // verus!
