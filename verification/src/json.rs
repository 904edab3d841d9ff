//! The outbound wire encoding: JSON text for terminal frames and
//! runtime errors, with string escaping, built and checked character by
//! character.

use vstd::prelude::*;
use vstd::string::*;
use crate::clock::{format_rfc3339, rfc3339_of};
use crate::exec::{ExecutionOutput, TerminalStream, TerminalStreamType};
use crate::lang::RuntimeError;
use crate::text::{chars_to_string, dec_chars, dec_digit, u64_to_dec};

verus! {

/// The character for one hexadecimal digit, lowercase.
pub open spec fn hex_digit(d: int) -> char {
    if d < 10 {
        dec_digit(d)
    } else if d == 10 {
        'a'
    } else if d == 11 {
        'b'
    } else if d == 12 {
        'c'
    } else if d == 13 {
        'd'
    } else if d == 14 {
        'e'
    } else {
        'f'
    }
}

/// How one character appears inside a JSON string literal: quotes and
/// backslashes are escaped, control characters take their short escape
/// or a `\u00..` escape, and every other character stands for itself.
pub open spec fn escape_char(c: char) -> Seq<char> {
    if c == '"' {
        seq!['\\', '"']
    } else if c == '\\' {
        seq!['\\', '\\']
    } else if c == '\n' {
        seq!['\\', 'n']
    } else if c == '\r' {
        seq!['\\', 'r']
    } else if c == '\t' {
        seq!['\\', 't']
    } else if c == '\u{0008}' {
        seq!['\\', 'b']
    } else if c == '\u{000C}' {
        seq!['\\', 'f']
    } else if (c as u32) < 0x20 {
        seq!['\\', 'u', '0', '0', hex_digit((c as u32) as int / 16), hex_digit((c as u32) as int % 16)]
    } else {
        seq![c]
    }
}

/// The body of a JSON string literal for the text `s`.
pub open spec fn escaped_chars(s: Seq<char>) -> Seq<char>
    decreases s.len(),
{
    if s.len() == 0 {
        Seq::empty()
    } else {
        escape_char(s[0]) + escaped_chars(s.drop_first())
    }
}

/// Escaping one more character appends that character's escape.
pub proof fn lemma_escaped_push(s: Seq<char>, c: char)
    ensures
        escaped_chars(s.push(c)) == escaped_chars(s) + escape_char(c),
    decreases s.len(),
{
    if s.len() == 0 {
        assert(s.push(c).drop_first() =~= Seq::<char>::empty());
        assert(s.push(c)[0] == c);
        assert(escaped_chars(s.push(c)) == escape_char(s.push(c)[0]) + escaped_chars(
            s.push(c).drop_first(),
        ));
        assert(escaped_chars(Seq::<char>::empty()) =~= Seq::<char>::empty());
        assert(escape_char(c) + Seq::<char>::empty() =~= escape_char(c));
        assert(escaped_chars(s) + escape_char(c) =~= escape_char(c));
    } else {
        assert(s.push(c).drop_first() =~= s.drop_first().push(c));
        lemma_escaped_push(s.drop_first(), c);
        assert(escape_char(s[0]) + (escaped_chars(s.drop_first()) + escape_char(c))
            =~= (escape_char(s[0]) + escaped_chars(s.drop_first())) + escape_char(c));
    }
}

/// The full JSON string literal for the text `s`, quotes included.
pub open spec fn json_string_chars(s: Seq<char>) -> Seq<char> {
    seq!['"'] + escaped_chars(s) + seq!['"']
}

fn hex_digit_exec(d: u32) -> (r: char)
    requires
        d < 16,
    ensures
        r == hex_digit(d as int),
{
    if d == 0 {
        '0'
    } else if d == 1 {
        '1'
    } else if d == 2 {
        '2'
    } else if d == 3 {
        '3'
    } else if d == 4 {
        '4'
    } else if d == 5 {
        '5'
    } else if d == 6 {
        '6'
    } else if d == 7 {
        '7'
    } else if d == 8 {
        '8'
    } else if d == 9 {
        '9'
    } else if d == 10 {
        'a'
    } else if d == 11 {
        'b'
    } else if d == 12 {
        'c'
    } else if d == 13 {
        'd'
    } else if d == 14 {
        'e'
    } else {
        'f'
    }
}

fn push_escaped(out: &mut Vec<char>, c: char)
    ensures
        final(out)@ == old(out)@ + escape_char(c),
{
    let ghost pre = out@;
    if c == '"' {
        out.push('\\');
        out.push('"');
    } else if c == '\\' {
        out.push('\\');
        out.push('\\');
    } else if c == '\n' {
        out.push('\\');
        out.push('n');
    } else if c == '\r' {
        out.push('\\');
        out.push('r');
    } else if c == '\t' {
        out.push('\\');
        out.push('t');
    } else if c == '\u{0008}' {
        out.push('\\');
        out.push('b');
    } else if c == '\u{000C}' {
        out.push('\\');
        out.push('f');
    } else if (c as u32) < 0x20 {
        let code = c as u32;
        out.push('\\');
        out.push('u');
        out.push('0');
        out.push('0');
        out.push(hex_digit_exec(code / 16));
        out.push(hex_digit_exec(code % 16));
    } else {
        out.push(c);
    }
    proof {
        assert(out@ =~= pre + escape_char(c));
    }
}

/// Renders `s` as a JSON string literal, quotes included.
pub fn json_quote(s: &str) -> (r: String)
    ensures
        r@ == json_string_chars(s@),
{
    let n = s.unicode_len();
    let mut out: Vec<char> = Vec::new();
    out.push('"');
    let mut i: usize = 0;
    while i < n
        invariant
            n == s@.len(),
            i <= n,
            out@ == seq!['"'] + escaped_chars(s@.take(i as int)),
        decreases n - i,
    {
        let c = s.get_char(i);
        push_escaped(&mut out, c);
        proof {
            assert(s@.take((i + 1) as int) =~= s@.take(i as int).push(s@[i as int]));
            lemma_escaped_push(s@.take(i as int), s@[i as int]);
            assert(out@ =~= seq!['"'] + escaped_chars(s@.take((i + 1) as int)));
        }
        i = i + 1;
    }
    out.push('"');
    proof {
        assert(s@.take(n as int) =~= s@);
        assert(out@ =~= json_string_chars(s@));
    }
    chars_to_string(&out)
}

/// The JSON text of a run result: the exit status string and the
/// duration in nanoseconds.
pub open spec fn output_json_chars(o: ExecutionOutput) -> Seq<char> {
    "{\"exit_status\":"@ + json_string_chars(o.exit_status@) + ",\"duration\":"@ + dec_chars(
        o.duration_nanos as nat,
    ) + "}"@
}

impl ExecutionOutput {
    /// Serializes the run result to its JSON text.
    pub fn to_json(&self) -> (r: String)
        ensures
            r@ == output_json_chars(*self),
    {
        let mut out = String::from_str("{\"exit_status\":");
        out.append(json_quote(self.exit_status.as_str()).as_str());
        out.append(",\"duration\":");
        out.append(chars_to_string(&u64_to_dec(self.duration_nanos)).as_str());
        out.append("}");
        proof {
            assert(out@ =~= output_json_chars(*self));
        }
        out
    }
}

/// The name of a frame kind on the wire.
pub open spec fn frame_type_chars(t: TerminalStreamType) -> Seq<char> {
    match t {
        TerminalStreamType::StandardInput => "StandardInput"@,
        TerminalStreamType::StandardOutput => "StandardOutput"@,
        TerminalStreamType::StandardError => "StandardError"@,
        TerminalStreamType::EndOfOutput => "EndOfOutput"@,
    }
}

/// The JSON text of one outbound frame: its kind, the payload that is
/// present, the correlation nonce if any, and the RFC 3339 timestamp.
pub open spec fn frame_json_chars(f: TerminalStream) -> Seq<char> {
    "{\"type\":"@ + json_string_chars(frame_type_chars(f.terminal_type)) + (match f.pipe_value {
        Some(v) => ",\"pipe_value\":"@ + json_string_chars(v@),
        None => Seq::<char>::empty(),
    }) + (match f.value {
        Some(o) => ",\"value\":"@ + output_json_chars(o),
        None => Seq::<char>::empty(),
    }) + (match f.nonce {
        Some(nc) => ",\"nonce\":"@ + json_string_chars(nc@),
        None => Seq::<char>::empty(),
    }) + ",\"timestamp\":"@ + json_string_chars(rfc3339_of(f.timestamp)) + "}"@
}

/// The name of a frame kind on the wire.
pub fn frame_type_str(t: &TerminalStreamType) -> (r: &'static str)
    ensures
        r@ == frame_type_chars(*t),
{
    match t {
        TerminalStreamType::StandardInput => "StandardInput",
        TerminalStreamType::StandardOutput => "StandardOutput",
        TerminalStreamType::StandardError => "StandardError",
        TerminalStreamType::EndOfOutput => "EndOfOutput",
    }
}

/// Serializes one outbound frame to its JSON text.
pub fn frame_to_json(f: &TerminalStream) -> (r: String)
    ensures
        r@ == frame_json_chars(*f),
{
    let mut out = String::from_str("{\"type\":");
    out.append(json_quote(frame_type_str(&f.terminal_type)).as_str());
    match &f.pipe_value {
        Some(v) => {
            out.append(",\"pipe_value\":");
            out.append(json_quote(v.as_str()).as_str());
        }
        None => {}
    }
    match &f.value {
        Some(o) => {
            out.append(",\"value\":");
            out.append(o.to_json().as_str());
        }
        None => {}
    }
    match &f.nonce {
        Some(nc) => {
            out.append(",\"nonce\":");
            out.append(json_quote(nc.as_str()).as_str());
        }
        None => {}
    }
    out.append(",\"timestamp\":");
    out.append(json_quote(format_rfc3339(f.timestamp).as_str()).as_str());
    out.append("}");
    proof {
        assert(out@ =~= frame_json_chars(*f));
    }
    out
}

/// The JSON text of a runtime error, tagged by kind, with the detail
/// text under `value` where the kind carries one.
pub open spec fn error_json_chars(e: RuntimeError) -> Seq<char> {
    match e {
        RuntimeError::NoExecutor => "{\"type\":\"NoExecutor\"}"@,
        RuntimeError::Capture(m) => "{\"type\":\"Capture\",\"value\":"@ + json_string_chars(m@)
            + "}"@,
        RuntimeError::WriteFailed(m) => "{\"type\":\"WriteFailed\",\"value\":"@
            + json_string_chars(m@) + "}"@,
        RuntimeError::InitializationFailure(m) => "{\"type\":\"InitializationFailure\",\"value\":"@
            + json_string_chars(m@) + "}"@,
        RuntimeError::ParseInput(m) => "{\"type\":\"ParseInput\",\"value\":"@ + json_string_chars(
            m@,
        ) + "}"@,
    }
}

impl RuntimeError {
    /// Serializes the error to its JSON text.
    pub fn as_string(&self) -> (r: String)
        ensures
            r@ == error_json_chars(*self),
    {
        let mut out: String;
        match self {
            RuntimeError::NoExecutor => {
                out = String::from_str("{\"type\":\"NoExecutor\"}");
            }
            RuntimeError::Capture(m) => {
                out = String::from_str("{\"type\":\"Capture\",\"value\":");
                out.append(json_quote(m.as_str()).as_str());
                out.append("}");
            }
            RuntimeError::WriteFailed(m) => {
                out = String::from_str("{\"type\":\"WriteFailed\",\"value\":");
                out.append(json_quote(m.as_str()).as_str());
                out.append("}");
            }
            RuntimeError::InitializationFailure(m) => {
                out = String::from_str("{\"type\":\"InitializationFailure\",\"value\":");
                out.append(json_quote(m.as_str()).as_str());
                out.append("}");
            }
            RuntimeError::ParseInput(m) => {
                out = String::from_str("{\"type\":\"ParseInput\",\"value\":");
                out.append(json_quote(m.as_str()).as_str());
                out.append("}");
            }
        }
        proof {
            assert(out@ =~= error_json_chars(*self));
        }
        out
    }

    /// Serializes the error to its JSON text, consuming it.
    pub fn to_string(self) -> (r: String)
        ensures
            r@ == error_json_chars(self),
    {
        self.as_string()
    }
}

} // verus!
