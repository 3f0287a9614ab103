use vstd::prelude::*;

use crate::text::digit_char;

verus! {

/// The greeting every successful request receives.
pub const GREETING: &'static str = "Hello, World!";

pub open spec fn hex_digit(d: nat) -> char {
    if d < 10 {
        digit_char(d)
    } else {
        (('a' as u32) + d - 10) as char
    }
}

/// How one character is written inside a JSON string: quote and backslash
/// escaped, control characters by their short escape or as `\u00xx`.
pub open spec fn json_escape(c: char) -> Seq<char> {
    if c == '"' {
        seq!['\\', '"']
    } else if c == '\\' {
        seq!['\\', '\\']
    } else if c == '\n' {
        seq!['\\', 'n']
    } else if c == '\r' {
        seq!['\\', 'r']
    } else if c == '\t' {
        seq!['\\', 't']
    } else if c == '\x08' {
        seq!['\\', 'b']
    } else if c == '\x0c' {
        seq!['\\', 'f']
    } else if (c as u32) < 0x20 {
        seq!['\\', 'u', '0', '0', hex_digit((c as u32 / 16) as nat), hex_digit((c as u32 % 16) as nat)]
    } else {
        seq![c]
    }
}

/// The characters of `s`, each escaped, without the surrounding quotes.
pub open spec fn json_escaped(s: Seq<char>) -> Seq<char>
    decreases s.len(),
{
    if s.len() == 0 {
        Seq::empty()
    } else {
        json_escaped(s.drop_last()) + json_escape(s.last())
    }
}

pub open spec fn json_string(s: Seq<char>) -> Seq<char> {
    seq!['"'] + json_escaped(s) + seq!['"']
}

/// The JSON text of a greeting record: an object with the one field `message`.
pub open spec fn greeting_json(message: Seq<char>) -> Seq<char> {
    "{\"message\":"@ + json_string(message) + "}"@
}

pub open spec fn needs_escape(c: char) -> bool {
    c == '"' || c == '\\' || (c as u32) < 0x20
}

fn hex_char(d: u32) -> (r: char)
    requires
        d < 16,
    ensures
        r == hex_digit(d as nat),
{
    if d < 10 {
        (48u8 + d as u8) as char
    } else {
        (87u8 + d as u8) as char
    }
}

/// Appends the escaped form of one character.
fn push_escaped(out: &mut String, c: char)
    ensures
        final(out)@ == old(out)@ + json_escape(c),
{
    if c == '"' {
        out.push('\\');
        out.push('"');
    } else if c == '\\' {
        out.push('\\');
        out.push('\\');
    } else if c == '\n' {
        out.push('\\');
        out.push('n');
    } else if c == '\r' {
        out.push('\\');
        out.push('r');
    } else if c == '\t' {
        out.push('\\');
        out.push('t');
    } else if c == '\x08' {
        out.push('\\');
        out.push('b');
    } else if c == '\x0c' {
        out.push('\\');
        out.push('f');
    } else if (c as u32) < 0x20 {
        out.push('\\');
        out.push('u');
        out.push('0');
        out.push('0');
        out.push(hex_char(c as u32 / 16));
        out.push(hex_char(c as u32 % 16));
    } else {
        out.push(c);
    }
    assert(final(out)@ =~= old(out)@ + json_escape(c));
}

/// Appends `s` as a quoted JSON string.
pub fn push_json_string(out: &mut String, s: &str)
    ensures
        final(out)@ == old(out)@ + json_string(s@),
{
    let ghost start = out@;
    out.push('"');
    for c in it: s.chars()
        invariant
            it.seq() == s@,
            out@ == start + seq!['"'] + json_escaped(s@.take(it.index() as int)),
    {
        assert(s@.take(it.index() + 1).drop_last() == s@.take(it.index() as int));
        push_escaped(out, c);
    }
    assert(s@.take(s@.len() as int) == s@);
    out.push('"');
    assert(out@ =~= start + json_string(s@));
}

/// The record sent back on the greeting route.
#[derive(Debug, PartialEq, Eq)]
pub struct GreetingResponse {
    pub message: String,
}

impl GreetingResponse {
    pub fn new() -> (r: GreetingResponse)
        ensures
            r.message@ == GREETING@,
    {
        GreetingResponse { message: String::from_str(GREETING) }
    }

    /// The record as JSON: `{"message":` then the quoted message, then `}`.
    pub fn to_json(&self) -> (r: String)
        ensures
            r@ == greeting_json(self.message@),
    {
        let mut out = String::from_str("{\"message\":");
        push_json_string(&mut out, self.message.as_str());
        out.append("}");
        out
    }
}

/// Text with no character to escape is written as it stands.
pub proof fn lemma_plain_text_unescaped(s: Seq<char>)
    requires
        forall|i: int| 0 <= i < s.len() ==> !needs_escape(#[trigger] s[i]),
    ensures
        json_escaped(s) == s,
    decreases s.len(),
{
    if s.len() > 0 {
        lemma_plain_text_unescaped(s.drop_last());
        assert(json_escaped(s) =~= s);
    }
}

/// The greeting is serialised as exactly `{"message":"Hello, World!"}`.
pub proof fn lemma_greeting_json()
    ensures
        greeting_json(GREETING@) == "{\"message\":\"Hello, World!\"}"@,
{
    reveal_strlit("Hello, World!");
    reveal_strlit("{\"message\":");
    reveal_strlit("}");
    reveal_strlit("{\"message\":\"Hello, World!\"}");
    lemma_plain_text_unescaped(GREETING@);
    assert(greeting_json(GREETING@) =~= "{\"message\":\"Hello, World!\"}"@);
}

} // verus!
