//! The Python `socketio` redis manager protocol: one JSON message per
//! addressed room, published on the manager's channel.

use vstd::prelude::*;
use crate::text::digit_char;

verus! {

/// The error `serde_json` reports when it cannot serialize a value.
#[verifier::external_type_specification]
#[verifier::external_body]
pub struct ExJsonError(serde_json::Error);

/// The lower-case hexadecimal digit for `d`, for `0 <= d < 16`.
pub open spec fn hex_digit(d: int) -> char {
    if d < 10 { digit_char(d) }
    else if d == 10 { 'a' }
    else if d == 11 { 'b' }
    else if d == 12 { 'c' }
    else if d == 13 { 'd' }
    else if d == 14 { 'e' }
    else { 'f' }
}

/// How a character is written inside a JSON string literal: `"` and `\`
/// behind a backslash; backspace, tab, line feed, form feed and carriage
/// return as `\b \t \n \f \r`; any other character below U+0020 as `\u00xx`
/// in lower-case hexadecimal; every other character as itself.
pub open spec fn json_escaped_char(c: char) -> Seq<char> {
    if c == '"' {
        seq!['\\', '"']
    } else if c == '\\' {
        seq!['\\', '\\']
    } else if c == '\u{8}' {
        seq!['\\', 'b']
    } else if c == '\t' {
        seq!['\\', 't']
    } else if c == '\n' {
        seq!['\\', 'n']
    } else if c == '\u{c}' {
        seq!['\\', 'f']
    } else if c == '\r' {
        seq!['\\', 'r']
    } else if (c as u32) < 0x20 {
        seq!['\\', 'u', '0', '0', hex_digit((c as u32 / 16) as int), hex_digit((c as u32 % 16) as int)]
    } else {
        seq![c]
    }
}

/// The characters of `s`, each written as in a JSON string literal.
pub open spec fn json_escaped(s: Seq<char>) -> Seq<char>
    decreases s.len(),
{
    if s.len() == 0 {
        seq![]
    } else {
        json_escaped_char(s[0]) + json_escaped(s.drop_first())
    }
}

/// The JSON string literal of `s`.
pub open spec fn json_string_literal(s: Seq<char>) -> Seq<char> {
    seq!['"'] + json_escaped(s) + seq!['"']
}

/// Calls `serde_json::to_string` on a string.  Its serializer writes the
/// string between quotes, escaping the bytes its `ESCAPE` table marks (the
/// ones `json_escaped_char` lists; every byte of a character at or above
/// U+0080 is copied as it is).  Its documentation names as the only causes
/// of failure a `Serialize` impl that fails and a map with non-string keys;
/// a string is neither, so it succeeds.
#[verifier::external_body]
pub(crate) fn json_quote(s: &str) -> (r: Result<String, serde_json::Error>)
    ensures
        r is Ok,
        r matches Ok(q) ==> q@ == json_string_literal(s@),
{
    serde_json::to_string(s)
}

/// The manager's message, its keys in the order `serde_json` writes an
/// object's keys: `{"callback":null,"data":D,"event":E,"host_id":null,
/// "method":"emit","namespace":N,"room":R,"skip_sid":null}`, where `D`,
/// `E`, `N` and `R` are JSON texts.
pub open spec fn manager_message(data: Seq<char>, event: Seq<char>, nsp: Seq<char>, room: Seq<char>) -> Seq<char> {
    "{\"callback\":null,\"data\":"@ + data + ",\"event\":"@ + event
        + ",\"host_id\":null,\"method\":\"emit\",\"namespace\":"@ + nsp + ",\"room\":"@ + room
        + ",\"skip_sid\":null}"@
}

/// The JSON text of an optional room: its string literal, or `null`.
pub open spec fn room_json(room: Option<Seq<char>>) -> Seq<char> {
    match room {
        Some(r) => json_string_literal(r),
        None => "null"@,
    }
}

/// The message that emits `event` with the JSON text `data` in namespace
/// `nsp` to `room` (to all when `None`).
pub open spec fn emit_message(event: Seq<char>, data: Seq<char>, nsp: Seq<char>, room: Option<Seq<char>>) -> Seq<char> {
    manager_message(data, json_string_literal(event), json_string_literal(nsp), room_json(room))
}

/// The rooms an emission is published for, one message each: every room
/// addressed, or the whole namespace (`None`) when none is.
pub open spec fn targets(rooms: Seq<Seq<char>>) -> Seq<Option<Seq<char>>> {
    if rooms.len() == 0 {
        seq![None]
    } else {
        rooms.map_values(|r: Seq<char>| Some(r))
    }
}

/// The text of an optional string slice.
pub open spec fn opt_text(room: Option<&str>) -> Option<Seq<char>> {
    match room {
        Some(r) => Some(r@),
        None => None,
    }
}

/// A message for the manager's channel.
#[derive(Debug, Clone, PartialEq)]
pub struct JsonPublication {
    pub channel: String,
    pub message: String,
}

/// Assembles the manager's message from the JSON texts of its parts (see
/// [`manager_message`]).
pub fn assemble_message(data: &str, event: &str, nsp: &str, room: &str) -> (m: String)
    ensures
        m@ == manager_message(data@, event@, nsp@, room@),
{
    let mut m = "{\"callback\":null,\"data\":".to_owned();
    m.append(data);
    m.append(",\"event\":");
    m.append(event);
    m.append(",\"host_id\":null,\"method\":\"emit\",\"namespace\":");
    m.append(nsp);
    m.append(",\"room\":");
    m.append(room);
    m.append(",\"skip_sid\":null}");
    m
}

fn quoted(s: &str) -> (q: String)
    ensures
        q@ == json_string_literal(s@),
{
    match json_quote(s) {
        Ok(q) => q,
        Err(_) => vstd::pervasive::unreached(),
    }
}

/// Builds the manager's message (see [`emit_message`]).
pub fn build_message(event: &str, data: &str, nsp: &str, room: Option<&str>) -> (m: String)
    ensures
        m@ == emit_message(event@, data@, nsp@, opt_text(room)),
        m@ == manager_message(data@, json_string_literal(event@), json_string_literal(nsp@), room_json(opt_text(room))),
{
    let event_q = quoted(event);
    let nsp_q = quoted(nsp);
    let room_q = match room {
        Some(name) => quoted(name),
        None => "null".to_owned(),
    };
    assemble_message(data, event_q.as_str(), nsp_q.as_str(), room_q.as_str())
}

/// Every message names the namespace it was built for, whatever room it
/// goes to: the message is the manager's template filled with the data, the
/// quoted event, the quoted namespace and the room's JSON text.
pub proof fn law_message_names_namespace(event: Seq<char>, data: Seq<char>, nsp: Seq<char>, room: Option<Seq<char>>)
    ensures
        emit_message(event, data, nsp, room) == manager_message(
            data,
            json_string_literal(event),
            json_string_literal(nsp),
            room_json(room),
        ),
        exists|head: Seq<char>, tail: Seq<char>|
            emit_message(event, data, nsp, room) == head + "\"namespace\":"@ + json_string_literal(nsp) + ",\"room\":"@
                + room_json(room) + tail,
{
    let a = "{\"callback\":null,\"data\":"@;
    let b = ",\"event\":"@;
    let c = ",\"host_id\":null,\"method\":\"emit\",\"namespace\":"@;
    let c1 = ",\"host_id\":null,\"method\":\"emit\","@;
    let n = "\"namespace\":"@;
    let r = ",\"room\":"@;
    let t = ",\"skip_sid\":null}"@;
    reveal_strlit(",\"host_id\":null,\"method\":\"emit\",\"namespace\":");
    reveal_strlit(",\"host_id\":null,\"method\":\"emit\",");
    reveal_strlit("\"namespace\":");
    assert(c =~= c1 + n);
    let head = a + data + b + json_string_literal(event) + c1;
    assert(emit_message(event, data, nsp, room) =~= head + n + json_string_literal(nsp) + r + room_json(room) + t);
}

} // verus!
