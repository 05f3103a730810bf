//! The emitter: which redis client, key prefix, namespace, rooms and flags
//! the next emission goes out with, and the operations that change them.

use vstd::prelude::*;
use crate::redis_client::{open_client, opened_client, redis_scheme};
use crate::text::{i32_to_decimal, int_decimal};
use crate::javascript::{
    build_event_channel, event_channel, flag_texts, owned_texts, str_texts, texts, JsEmission,
    Opts, Packet, EVENT_PACKET_TYPE,
};
use crate::python::{
    build_message, emit_message, json_string_literal, manager_message, opt_text, room_json, targets,
    JsonPublication,
};

verus! {

/// What an emitter holds, but for its redis client.
pub struct EmitterView {
    /// The key prefix of the JavaScript adapter's channels.
    pub prefix: Seq<char>,
    /// The namespace events are emitted in.
    pub nsp: Seq<char>,
    /// The channel of the Python manager.
    pub channel: Seq<char>,
    /// The rooms the next event is addressed to.
    pub rooms: Seq<Seq<char>>,
    /// The flags the next event carries.
    pub flags: Seq<(Seq<char>, bool)>,
    /// The id the emitter signs its packets with.
    pub uid: Seq<char>,
}

/// The key prefix used when none is given.
pub open spec fn default_prefix() -> Seq<char> {
    "socket.io"@
}

/// The namespace a new emitter emits in.
pub open spec fn root_namespace() -> Seq<char> {
    "/"@
}

/// A fresh emitter for `prefix` and namespace `nsp`: the default manager
/// channel, no rooms, no flags.
pub open spec fn fresh(prefix: Seq<char>, nsp: Seq<char>) -> EmitterView {
    EmitterView {
        prefix,
        nsp,
        channel: "socketio"@,
        rooms: seq![],
        flags: seq![],
        uid: "emitter"@,
    }
}

/// `v` with `room` added to the rooms addressed.
pub open spec fn with_room(v: EmitterView, room: Seq<char>) -> EmitterView {
    EmitterView { rooms: v.rooms.push(room), ..v }
}

/// `v` with its flags replaced by the single flag `name`.
pub open spec fn with_flag(v: EmitterView, name: Seq<char>) -> EmitterView {
    EmitterView { flags: seq![(name, true)], ..v }
}

/// `v` with the Python manager channel `name`.
pub open spec fn with_channel(v: EmitterView, name: Seq<char>) -> EmitterView {
    EmitterView { channel: name, ..v }
}

/// `v` after an event went out: no rooms, no flags.
pub open spec fn cleared(v: EmitterView) -> EmitterView {
    EmitterView { rooms: seq![], flags: seq![], ..v }
}

/// Emits socket.io events through a redis client.
#[derive(Debug, Clone)]
pub struct Emitter {
    redis: redis::Client,
    prefix: String,
    nsp: String,
    channel: String,
    rooms: Vec<String>,
    flags: Vec<(String, bool)>,
    uid: String,
}

impl View for Emitter {
    type V = EmitterView;

    closed spec fn view(&self) -> EmitterView {
        EmitterView {
            prefix: self.prefix@,
            nsp: self.nsp@,
            channel: self.channel@,
            rooms: texts(self.rooms@),
            flags: flag_texts(self.flags@),
            uid: self.uid@,
        }
    }
}

/// Options for an emitter that opens its own redis client.
#[derive(Debug, PartialEq, Clone, Default)]
pub struct EmitterOpts<'a> {
    pub host: String,
    pub port: i32,
    pub socket: Option<String>,
    pub key: Option<&'a str>,
}

/// The URL an emitter built from options connects to: `redis://host:port`.
pub open spec fn opts_url(host: Seq<char>, port: i32) -> Seq<char> {
    redis_scheme() + (host + seq![':'] + int_decimal(port as int))
}

/// The key prefix of an emitter built from options.
pub open spec fn opts_prefix(key: Option<&str>) -> Seq<char> {
    match key {
        Some(k) => k@,
        None => default_prefix(),
    }
}

/// The URL an emitter built from an address connects to: `redis://address`.
pub open spec fn address_url(address: Seq<char>) -> Seq<char> {
    redis_scheme() + address
}

/// What an emitter can be made from.
pub trait IntoEmitter: Sized {
    /// Whether an emitter can be made from `self`.
    spec fn accepted(&self) -> bool;

    /// The key prefix of the emitter made from `self`.
    spec fn key_prefix(&self) -> Seq<char>;

    /// The redis client of the emitter made from `self`, where `self` is accepted.
    spec fn provided_client(&self) -> redis::Client;

    /// Makes an emitter in the root namespace, or `None` where `self` is not accepted.
    fn try_into_emitter(self) -> (r: Option<Emitter>)
        ensures
            r is Some <==> self.accepted(),
            r matches Some(e) ==> e@ == fresh(self.key_prefix(), root_namespace()),
            r matches Some(e) ==> e.client_spec() == self.provided_client(),
    ;

    /// Makes an emitter in the root namespace.
    fn into_emitter(self) -> (e: Emitter)
        requires
            self.accepted(),
        ensures
            e@ == fresh(self.key_prefix(), root_namespace()),
            e.client_spec() == self.provided_client(),
    {
        match self.try_into_emitter() {
            Some(e) => e,
            None => vstd::pervasive::unreached(),
        }
    }
}

fn default_prefix_str() -> (s: &'static str)
    ensures
        s@ == default_prefix(),
{
    "socket.io"
}

fn root_namespace_str() -> (s: &'static str)
    ensures
        s@ == root_namespace(),
{
    "/"
}

fn scheme_str() -> (s: &'static str)
    ensures
        s@ == redis_scheme(),
{
    proof { reveal_strlit("redis://"); }
    "redis://"
}

proof fn lemma_scheme_prefix(rest: Seq<char>)
    ensures
        (redis_scheme() + rest).len() >= redis_scheme().len(),
        (redis_scheme() + rest).subrange(0, redis_scheme().len() as int) == redis_scheme(),
{
    assert((redis_scheme() + rest).subrange(0, redis_scheme().len() as int) =~= redis_scheme());
}

impl IntoEmitter for redis::Client {
    open spec fn accepted(&self) -> bool {
        true
    }

    open spec fn key_prefix(&self) -> Seq<char> {
        default_prefix()
    }

    open spec fn provided_client(&self) -> redis::Client {
        *self
    }

    fn try_into_emitter(self) -> (r: Option<Emitter>) {
        Some(create_emitter(self, default_prefix_str(), root_namespace_str()))
    }
}

impl<'a> IntoEmitter for EmitterOpts<'a> {
    open spec fn accepted(&self) -> bool {
        opened_client(opts_url(self.host@, self.port)) is Some
    }

    open spec fn key_prefix(&self) -> Seq<char> {
        opts_prefix(self.key)
    }

    open spec fn provided_client(&self) -> redis::Client {
        opened_client(opts_url(self.host@, self.port)).unwrap()
    }

    fn try_into_emitter(self) -> (r: Option<Emitter>) {
        let mut url = scheme_str().to_owned();
        url.append(self.host.as_str());
        proof { reveal_strlit(":"); }
        url.append(":");
        url.append(i32_to_decimal(self.port).as_str());
        proof { lemma_scheme_prefix(self.host@ + seq![':'] + int_decimal(self.port as int)); }
        assert(url@ =~= opts_url(self.host@, self.port));
        let prefix = match self.key {
            Some(k) => k,
            None => default_prefix_str(),
        };
        match open_client(url.as_str()) {
            Ok(client) => Some(create_emitter(client, prefix, root_namespace_str())),
            Err(_) => None,
        }
    }
}

impl<'a> IntoEmitter for &'a str {
    open spec fn accepted(&self) -> bool {
        opened_client(address_url((*self)@)) is Some
    }

    open spec fn key_prefix(&self) -> Seq<char> {
        default_prefix()
    }

    open spec fn provided_client(&self) -> redis::Client {
        opened_client(address_url((*self)@)).unwrap()
    }

    fn try_into_emitter(self) -> (r: Option<Emitter>) {
        let mut url = scheme_str().to_owned();
        url.append(self);
        proof { lemma_scheme_prefix(self@); }
        assert(url@ == address_url(self@));
        match open_client(url.as_str()) {
            Ok(client) => Some(create_emitter(client, default_prefix_str(), root_namespace_str())),
            Err(_) => None,
        }
    }
}

/// A fresh emitter on `redis` for key prefix `prefix` and namespace `nsp`.
pub fn create_emitter(redis: redis::Client, prefix: &str, nsp: &str) -> (e: Emitter)
    ensures
        e@ == fresh(prefix@, nsp@),
        e.client_spec() == redis,
{
    let e = Emitter {
        redis,
        prefix: prefix.to_owned(),
        nsp: nsp.to_owned(),
        channel: "socketio".to_owned(),
        rooms: Vec::new(),
        flags: Vec::new(),
        uid: "emitter".to_owned(),
    };
    assert(texts(e.rooms@) =~= seq![]);
    assert(flag_texts(e.flags@) =~= seq![]);
    e
}

impl Emitter {
    /// The redis client the emitter publishes through.
    pub closed spec fn client_spec(&self) -> redis::Client {
        self.redis
    }

    /// The redis client the emitter publishes through.
    pub fn client(&self) -> (c: &redis::Client)
        ensures
            *c == self.client_spec(),
    {
        &self.redis
    }

    /// An emitter in the root namespace made from `data`.
    pub fn new<I: IntoEmitter>(data: I) -> (e: Emitter)
        requires
            data.accepted(),
        ensures
            e@ == fresh(data.key_prefix(), root_namespace()),
            e.client_spec() == data.provided_client(),
    {
        data.into_emitter()
    }

    /// An emitter in the root namespace made from `data`, or `None` where
    /// `data` is not accepted.
    pub fn try_new<I: IntoEmitter>(data: I) -> (r: Option<Emitter>)
        ensures
            r is Some <==> data.accepted(),
            r matches Some(e) ==> e@ == fresh(data.key_prefix(), root_namespace()),
            r matches Some(e) ==> e.client_spec() == data.provided_client(),
    {
        data.try_into_emitter()
    }

    /// Addresses the next event to `room` as well.
    pub fn to(self, room: &str) -> (e: Emitter)
        ensures
            e@ == with_room(self@, room@),
            e.client_spec() == self.client_spec(),
            e@.rooms == self@.rooms.push(room@),
            e@.prefix == self@.prefix,
            e@.nsp == self@.nsp,
            e@.channel == self@.channel,
            e@.flags == self@.flags,
            e@.uid == self@.uid,
    {
        let mut e = self;
        e.rooms.push(room.to_owned());
        assert(texts(e.rooms@) =~= texts(self.rooms@).push(room@));
        e
    }

    /// A fresh emitter for namespace `nsp`, on the same client and prefix.
    pub fn of(self, nsp: &str) -> (e: Emitter)
        ensures
            e@ == fresh(self@.prefix, nsp@),
            e.client_spec() == self.client_spec(),
            e@.prefix == self@.prefix,
            e@.nsp == nsp@,
            e@.rooms.len() == 0,
            e@.flags.len() == 0,
    {
        let Emitter { redis, prefix, .. } = self;
        create_emitter(redis, prefix.as_str(), nsp)
    }

    /// Sets the channel of the Python manager.
    pub fn channel(self, name: &str) -> (e: Emitter)
        ensures
            e@ == with_channel(self@, name@),
            e.client_spec() == self.client_spec(),
            e@.channel == name@,
            e@.prefix == self@.prefix,
            e@.nsp == self@.nsp,
            e@.rooms == self@.rooms,
            e@.flags == self@.flags,
            e@.uid == self@.uid,
    {
        let mut e = self;
        e.channel = name.to_owned();
        e
    }

    fn set_flag(self, name: &str) -> (e: Emitter)
        ensures
            e@ == with_flag(self@, name@),
            e.client_spec() == self.client_spec(),
            e@.flags == seq![(name@, true)],
            e@.prefix == self@.prefix,
            e@.nsp == self@.nsp,
            e@.channel == self@.channel,
            e@.rooms == self@.rooms,
            e@.uid == self@.uid,
    {
        let mut flags: Vec<(String, bool)> = Vec::new();
        flags.push((name.to_owned(), true));
        let mut e = self;
        e.flags = flags;
        assert(flag_texts(e.flags@) =~= seq![(name@, true)]);
        e
    }

    /// Marks the next event as `json`, in place of any other flag.
    pub fn json(self) -> (e: Emitter)
        ensures
            e@ == with_flag(self@, "json"@),
            e.client_spec() == self.client_spec(),
            e@.flags == seq![("json"@, true)],
            e@.prefix == self@.prefix,
            e@.nsp == self@.nsp,
            e@.channel == self@.channel,
            e@.rooms == self@.rooms,
            e@.uid == self@.uid,
    {
        self.set_flag("json")
    }

    /// Marks the next event as `volatile`, in place of any other flag.
    pub fn volatile(self) -> (e: Emitter)
        ensures
            e@ == with_flag(self@, "volatile"@),
            e.client_spec() == self.client_spec(),
            e@.flags == seq![("volatile"@, true)],
            e@.prefix == self@.prefix,
            e@.nsp == self@.nsp,
            e@.channel == self@.channel,
            e@.rooms == self@.rooms,
            e@.uid == self@.uid,
    {
        self.set_flag("volatile")
    }

    /// Marks the next event as `broadcast`, in place of any other flag.
    pub fn broadcast(self) -> (e: Emitter)
        ensures
            e@ == with_flag(self@, "broadcast"@),
            e.client_spec() == self.client_spec(),
            e@.flags == seq![("broadcast"@, true)],
            e@.prefix == self@.prefix,
            e@.nsp == self@.nsp,
            e@.channel == self@.channel,
            e@.rooms == self@.rooms,
            e@.uid == self@.uid,
    {
        self.set_flag("broadcast")
    }

    /// Emits an event with arguments `message` to the JavaScript adapter:
    /// returns what is to be published, and the emitter with its rooms and
    /// flags cleared.
    pub fn emit(self, message: Vec<&str>) -> (r: (Emitter, JsEmission))
        ensures
            r.0@ == cleared(self@),
            r.0.client_spec() == self.client_spec(),
            r.0@.rooms.len() == 0,
            r.0@.flags.len() == 0,
            r.0@.prefix == self@.prefix,
            r.0@.nsp == self@.nsp,
            r.0@.channel == self@.channel,
            r.0@.uid == self@.uid,
            r.1.channel@ == event_channel(self@.prefix, self@.nsp, self@.rooms),
            r.1.uid@ == self@.uid,
            r.1.packet.packet_type == EVENT_PACKET_TYPE,
            texts(r.1.packet.data@) == str_texts(message@),
            r.1.packet.nsp@ == self@.nsp,
            texts(r.1.opts.rooms@) == self@.rooms,
            flag_texts(r.1.opts.flags@) == self@.flags,
    {
        let Emitter { redis, prefix, nsp, channel, rooms, flags, uid } = self;
        let event_channel = build_event_channel(prefix.as_str(), nsp.as_str(), &rooms);
        let packet = Packet { packet_type: EVENT_PACKET_TYPE, data: owned_texts(&message), nsp: nsp.clone() };
        let emission = JsEmission {
            channel: event_channel,
            uid: uid.clone(),
            packet,
            opts: Opts { rooms, flags },
        };
        let e = Emitter { redis, prefix, nsp, channel, rooms: Vec::new(), flags: Vec::new(), uid };
        assert(texts(e.rooms@) =~= seq![]);
        assert(flag_texts(e.flags@) =~= seq![]);
        (e, emission)
    }

    /// Emits `event` with the JSON text `data` to the Python manager: one
    /// message on the manager's channel for each room addressed, in order, or
    /// one for the whole namespace when none is.  The emitter is handed back
    /// as it was.
    pub fn emit_json(self, event: &str, data: &str) -> (r: (Emitter, Vec<JsonPublication>))
        ensures
            r.0@ == self@,
            r.0.client_spec() == self.client_spec(),
            r.1@.len() == targets(self@.rooms).len(),
            forall|i: int| 0 <= i < r.1@.len() ==> {
                &&& (#[trigger] r.1@[i]).channel@ == self@.channel
                &&& r.1@[i].message@ == emit_message(event@, data@, self@.nsp, targets(self@.rooms)[i])
                &&& r.1@[i].message@ == manager_message(
                    data@,
                    json_string_literal(event@),
                    json_string_literal(self@.nsp),
                    room_json(targets(self@.rooms)[i]),
                )
            },
    {
        let mut publications: Vec<JsonPublication> = Vec::new();
        if self.rooms.len() == 0 {
            let message = build_message(event, data, self.nsp.as_str(), None);
            publications.push(JsonPublication { channel: self.channel.clone(), message });
        } else {
            let n: usize = self.rooms.len();
            for i in 0..n
                invariant
                    n == self.rooms@.len(),
                    n > 0,
                    publications@.len() == i,
                    forall|j: int| 0 <= j < i ==> {
                        &&& (#[trigger] publications@[j]).channel@ == self@.channel
                        &&& publications@[j].message@ == emit_message(event@, data@, self@.nsp, targets(self@.rooms)[j])
                        &&& publications@[j].message@ == manager_message(
                            data@,
                            json_string_literal(event@),
                            json_string_literal(self@.nsp),
                            room_json(targets(self@.rooms)[j]),
                        )
                    },
            {
                let room = self.rooms[i].as_str();
                assert(targets(self@.rooms)[i as int] == opt_text(Some(room)));
                let message = build_message(event, data, self.nsp.as_str(), Some(room));
                publications.push(JsonPublication { channel: self.channel.clone(), message });
            }
        }
        (self, publications)
    }
}

} // verus!
