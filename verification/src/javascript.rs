//! The JavaScript redis adapter protocol: the channel on which an event is
//! published, and the packet and options that travel with it.

use vstd::prelude::*;

verus! {

/// The socket.io packet type of an event.
pub const EVENT_PACKET_TYPE: i32 = 2;

/// The texts of a sequence of strings.
pub open spec fn texts(v: Seq<String>) -> Seq<Seq<char>> {
    v.map_values(|s: String| s@)
}

/// The texts of a sequence of (flag name, value) entries.
pub open spec fn flag_texts(v: Seq<(String, bool)>) -> Seq<(Seq<char>, bool)> {
    v.map_values(|p: (String, bool)| (p.0@, p.1))
}

/// The texts of a sequence of string slices.
pub open spec fn str_texts(v: Seq<&str>) -> Seq<Seq<char>> {
    v.map_values(|s: &str| s@)
}

/// The channel of a namespace under a key prefix: `prefix#nsp#`.
/// Every channel an event of the namespace is published on begins with it.
pub open spec fn namespace_channel(prefix: Seq<char>, nsp: Seq<char>) -> Seq<char> {
    prefix + seq!['#'] + nsp + seq!['#']
}

/// The channel an event is published on: `prefix#nsp#room#` when it is
/// addressed to exactly one room, `prefix#nsp#` otherwise.
pub open spec fn event_channel(prefix: Seq<char>, nsp: Seq<char>, rooms: Seq<Seq<char>>) -> Seq<char> {
    if rooms.len() == 1 {
        namespace_channel(prefix, nsp) + rooms[0] + seq!['#']
    } else {
        namespace_channel(prefix, nsp)
    }
}

/// The event packet of the adapter protocol.
#[derive(Debug, Clone, PartialEq)]
pub struct Packet {
    /// The socket.io packet type; an event is [`EVENT_PACKET_TYPE`].
    pub packet_type: i32,
    /// The event's arguments.
    pub data: Vec<String>,
    /// The namespace the event is emitted in.
    pub nsp: String,
}

/// The options that say which sockets receive a packet.
#[derive(Debug, Clone, PartialEq)]
pub struct Opts {
    /// The rooms the packet is addressed to; none means every socket.
    pub rooms: Vec<String>,
    /// The emission flags (`json`, `volatile`, `broadcast`).
    pub flags: Vec<(String, bool)>,
}

/// Everything one `emit` publishes: the channel, and the message
/// `(uid, packet, opts)` that is to be encoded as MessagePack, structs as maps.
#[derive(Debug, Clone, PartialEq)]
pub struct JsEmission {
    pub channel: String,
    pub uid: String,
    pub packet: Packet,
    pub opts: Opts,
}

fn hash_str() -> (s: &'static str)
    ensures
        s@ == seq!['#'],
{
    proof { reveal_strlit("#"); }
    "#"
}

/// Builds the channel an event is published on (see [`event_channel`]).
pub fn build_event_channel(prefix: &str, nsp: &str, rooms: &Vec<String>) -> (c: String)
    ensures
        c@ == event_channel(prefix@, nsp@, texts(rooms@)),
{
    let mut c = prefix.to_owned();
    c.append(hash_str());
    c.append(nsp);
    c.append(hash_str());
    if rooms.len() == 1 {
        c.append(rooms[0].as_str());
        c.append(hash_str());
    }
    c
}

/// Copies the event arguments into owned strings.
pub fn owned_texts(message: &Vec<&str>) -> (v: Vec<String>)
    ensures
        texts(v@) == str_texts(message@),
{
    let mut v: Vec<String> = Vec::new();
    for i in 0..message.len()
        invariant
            v@.len() == i,
            forall|j: int| 0 <= j < i ==> #[trigger] v@[j]@ == message@[j]@,
    {
        v.push(message[i].to_owned());
    }
    assert(texts(v@) =~= str_texts(message@));
    v
}

} // verus!
