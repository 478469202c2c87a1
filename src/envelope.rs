//! The two line-delimited JSON envelopes written to the agent's input stream.
use vstd::prelude::*;

verus! {

#[verifier::external_type_specification]
#[verifier::external_body]
pub struct ExJsonError(serde_json::Error);

#[verifier::external_type_specification]
#[verifier::external_body]
pub struct ExJsonValue(serde_json::Value);

/// Lower-case hexadecimal digit of `n`, for `n < 16`.
pub open spec fn hex_digit(n: u32) -> char {
    seq!['0', '1', '2', '3', '4', '5', '6', '7', '8', '9', 'a', 'b', 'c', 'd', 'e', 'f'][n as int]
}

/// How one character stands inside a JSON string: `"` and `\` and the
/// control characters below 0x20 are escaped (five of those by a short
/// escape, the rest as `\u00XX`); every other character stands as it is.
pub open spec fn escape_char(c: char) -> Seq<char> {
    if c == '"' {
        seq!['\\', '"']
    } else if c == '\\' {
        seq!['\\', '\\']
    } else if c == '\u{8}' {
        seq!['\\', 'b']
    } else if c == '\t' {
        seq!['\\', 't']
    } else if c == '\n' {
        seq!['\\', 'n']
    } else if c == '\u{c}' {
        seq!['\\', 'f']
    } else if c == '\r' {
        seq!['\\', 'r']
    } else if (c as u32) < 0x20 {
        seq!['\\', 'u', '0', '0', hex_digit((c as u32) / 16), hex_digit((c as u32) % 16)]
    } else {
        seq![c]
    }
}

/// The escaped characters of a text, in order.
pub open spec fn escaped(s: Seq<char>) -> Seq<char>
    decreases s.len(),
{
    if s.len() == 0 {
        seq![]
    } else {
        escaped(s.drop_last()) + escape_char(s.last())
    }
}

/// The JSON string literal for a text: its escaped characters in quotes.
pub open spec fn json_quoted(s: Seq<char>) -> Seq<char> {
    seq!['"'] + escaped(s) + seq!['"']
}

/// Relies on `serde_json::to_string` on a `str`: it writes the quoted and
/// escaped text into a `Vec<u8>`, which cannot fail.
#[verifier::external_body]
pub(crate) fn encode_text(s: &str) -> (r: Result<String, serde_json::Error>)
    ensures
        r is Ok,
        r->Ok_0@ == json_quoted(s@),
{
    serde_json::to_string(s)
}

/// Relies on `serde_json::to_string` on a `Value`: its compact JSON text,
/// written into a `Vec<u8>`; a `Value`'s map keys are strings, so it cannot
/// fail. The compact writer puts no white space between tokens and escapes
/// control characters inside strings, so the text holds no newline.
#[verifier::external_body]
pub(crate) fn encode_value(v: &serde_json::Value) -> (r: Result<String, serde_json::Error>)
    ensures
        r is Ok,
        !r->Ok_0@.contains('\n'),
{
    serde_json::to_string(v)
}

proof fn lemma_escaped_has_no_newline(s: Seq<char>)
    ensures
        !escaped(s).contains('\n'),
    decreases s.len(),
{
    if s.len() > 0 {
        lemma_escaped_has_no_newline(s.drop_last());
        let c = s.last();
        let e = escape_char(c);
        assert(!e.contains('\n')) by {
            if e.contains('\n') {
                let i = choose|i: int| 0 <= i < e.len() && e[i] == '\n';
                if c != '"' && c != '\\' && c != '\u{8}' && c != '\t' && c != '\n' && c != '\u{c}'
                    && c != '\r' && (c as u32) < 0x20 {
                    assert(i >= 4);
                    assert((c as u32) / 16 < 16);
                }
            }
        }
        let a = escaped(s.drop_last());
        assert forall|i: int| 0 <= i < escaped(s).len() implies escaped(s)[i] != '\n' by {
            if i < a.len() {
                assert(escaped(s)[i] == a[i]);
            } else {
                assert(escaped(s)[i] == e[i - a.len()]);
            }
        }
    }
}

/// The line that carries a user message, given the message as a JSON string
/// literal.
pub open spec fn user_message_line(content_json: Seq<char>) -> Seq<char> {
    "{\"type\":\"user\",\"message\":{\"role\":\"user\",\"content\":"@ + content_json + "}}\n"@
}

/// The line that carries the result of a tool use, given the id as a JSON
/// string literal and the result as JSON text.
pub open spec fn tool_result_line(id_json: Seq<char>, content_json: Seq<char>) -> Seq<char> {
    "{\"type\":\"user\",\"message\":{\"role\":\"user\",\"content\":[{\"type\":\"tool_result\",\"tool_use_id\":"@
        + id_json + ",\"content\":"@ + content_json + "}]}}\n"@
}

/// A text that holds exactly one newline, the one that ends it.
pub open spec fn is_one_line(l: Seq<char>) -> bool {
    &&& l.len() > 0
    &&& l.last() == '\n'
    &&& forall|i: int| 0 <= i < l.len() - 1 ==> l[i] != '\n'
}

proof fn lemma_concat_no_newline(a: Seq<char>, b: Seq<char>)
    requires
        !a.contains('\n'),
        !b.contains('\n'),
    ensures
        !(a + b).contains('\n'),
{
    assert forall|i: int| 0 <= i < (a + b).len() implies (a + b)[i] != '\n' by {
        if i < a.len() {
            assert((a + b)[i] == a[i]);
        } else {
            assert((a + b)[i] == b[i - a.len()]);
        }
    }
}

proof fn lemma_quoted_no_newline(s: Seq<char>)
    ensures
        !json_quoted(s).contains('\n'),
{
    lemma_escaped_has_no_newline(s);
    lemma_concat_no_newline(seq!['"'], escaped(s));
    lemma_concat_no_newline(seq!['"'] + escaped(s), seq!['"']);
}

proof fn lemma_framed_one_line(body: Seq<char>, tail: Seq<char>)
    requires
        !body.contains('\n'),
        is_one_line(tail),
    ensures
        is_one_line(body + tail),
{
    let l = body + tail;
    assert forall|i: int| 0 <= i < l.len() - 1 implies l[i] != '\n' by {
        if i < body.len() {
            assert(l[i] == body[i]);
        } else {
            assert(l[i] == tail[i - body.len()]);
        }
    }
}

/// A user message line holds exactly one newline, the one that ends it.
pub proof fn lemma_message_line_is_one_line(text: Seq<char>)
    ensures
        is_one_line(user_message_line(json_quoted(text))),
{
    reveal_strlit("{\"type\":\"user\",\"message\":{\"role\":\"user\",\"content\":");
    reveal_strlit("}}\n");
    let p = "{\"type\":\"user\",\"message\":{\"role\":\"user\",\"content\":"@;
    assert(!p.contains('\n'));
    lemma_quoted_no_newline(text);
    lemma_concat_no_newline(p, json_quoted(text));
    lemma_framed_one_line(p + json_quoted(text), "}}\n"@);
}

/// A tool-result line holds exactly one newline, the one that ends it,
/// when the encoded result holds none.
pub proof fn lemma_tool_result_line_is_one_line(id: Seq<char>, content_json: Seq<char>)
    requires
        !content_json.contains('\n'),
    ensures
        is_one_line(tool_result_line(json_quoted(id), content_json)),
{
    reveal_strlit(
        "{\"type\":\"user\",\"message\":{\"role\":\"user\",\"content\":[{\"type\":\"tool_result\",\"tool_use_id\":",
    );
    reveal_strlit(",\"content\":");
    reveal_strlit("}]}}\n");
    let p =
        "{\"type\":\"user\",\"message\":{\"role\":\"user\",\"content\":[{\"type\":\"tool_result\",\"tool_use_id\":"@;
    let m = ",\"content\":"@;
    assert(!p.contains('\n'));
    assert(!m.contains('\n'));
    lemma_quoted_no_newline(id);
    lemma_concat_no_newline(p, json_quoted(id));
    lemma_concat_no_newline(p + json_quoted(id), m);
    lemma_concat_no_newline(p + json_quoted(id) + m, content_json);
    lemma_framed_one_line(p + json_quoted(id) + m + content_json, "}]}}\n"@);
}

/// Frames an already encoded message as a newline-terminated user envelope.
pub fn user_message_envelope(content_json: &str) -> (r: String)
    ensures
        r@ == user_message_line(content_json@),
{
    let mut line = String::from_str("{\"type\":\"user\",\"message\":{\"role\":\"user\",\"content\":");
    line.append(content_json);
    line.append("}}\n");
    line
}

/// Frames an already encoded tool-use id and result as a newline-terminated
/// tool-result envelope.
pub fn tool_result_envelope(id_json: &str, content_json: &str) -> (r: String)
    ensures
        r@ == tool_result_line(id_json@, content_json@),
{
    let mut line = String::from_str(
        "{\"type\":\"user\",\"message\":{\"role\":\"user\",\"content\":[{\"type\":\"tool_result\",\"tool_use_id\":",
    );
    line.append(id_json);
    line.append(",\"content\":");
    line.append(content_json);
    line.append("}]}}\n");
    line
}

} // verus!
