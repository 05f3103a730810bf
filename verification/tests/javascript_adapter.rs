use socketio_emitter::emitter::Emitter;
use socketio_emitter::javascript::{build_event_channel, owned_texts, Opts, Packet, EVENT_PACKET_TYPE};

fn local_client() -> redis::Client {
    redis::Client::open("redis://127.0.0.1/").unwrap()
}

#[test]
fn emit() {
    let io = Emitter::new(local_client());
    let (_, actual) = io.emit(vec!["test1", "test2"]);
    assert_eq!("socket.io#/#", actual.channel);
    assert_eq!("emitter", actual.uid);
    assert_eq!(
        Packet {
            packet_type: 2,
            data: vec!["test1".to_string(), "test2".to_string()],
            nsp: "/".to_string(),
        },
        actual.packet
    );
    assert_eq!(
        Opts {
            rooms: vec![],
            flags: vec![],
        },
        actual.opts
    );
}

#[test]
fn emit_in_namespaces() {
    let io = Emitter::new(local_client());
    let (_, actual) = io.of("/custom").emit(vec!["test"]);
    assert_eq!("socket.io#/custom#", actual.channel);
    assert_eq!("emitter", actual.uid);
    assert_eq!(
        Packet {
            packet_type: 2,
            data: vec!["test".to_string()],
            nsp: "/custom".to_string(),
        },
        actual.packet
    );
    assert_eq!(
        Opts {
            rooms: vec![],
            flags: vec![],
        },
        actual.opts
    );
}

#[test]
fn emit_to_namespaces() {
    let io = Emitter::new(local_client());
    let (_, actual) = io.of("/custom").emit(vec!["test"]);
    assert_eq!("socket.io#/custom#", actual.channel);
    assert_eq!("emitter", actual.uid);
    assert_eq!(
        Packet {
            packet_type: 2,
            data: vec!["test".to_string()],
            nsp: "/custom".to_string(),
        },
        actual.packet
    );
    assert_eq!(
        Opts {
            rooms: vec![],
            flags: vec![],
        },
        actual.opts
    );
}

#[test]
fn emit_to_room() {
    let io = Emitter::new(local_client());
    let (_, actual) = io.to("room1").emit(vec!["test"]);
    assert_eq!("socket.io#/#room1#", actual.channel);
    assert_eq!("emitter", actual.uid);
    assert_eq!(
        Packet {
            packet_type: 2,
            data: vec!["test".to_string()],
            nsp: "/".to_string(),
        },
        actual.packet
    );
    assert_eq!(
        Opts {
            rooms: vec!["room1".to_string()],
            flags: vec![],
        },
        actual.opts
    );
}

#[test]
fn emit_to_two_rooms_uses_namespace_channel() {
    let io = Emitter::new(local_client());
    let (_, actual) = io.to("a").to("b").emit(vec![]);
    assert_eq!("socket.io#/#", actual.channel);
    assert_eq!(vec!["a".to_string(), "b".to_string()], actual.opts.rooms);
    assert!(actual.packet.data.is_empty());
}

#[test]
fn emit_clears_rooms_and_flags() {
    let io = Emitter::new(local_client());
    let (io, first) = io.to("room1").json().emit(vec!["x"]);
    assert_eq!("socket.io#/#room1#", first.channel);
    assert_eq!(vec![("json".to_string(), true)], first.opts.flags);
    let (_, second) = io.emit(vec!["y"]);
    assert_eq!("socket.io#/#", second.channel);
    assert!(second.opts.rooms.is_empty());
    assert!(second.opts.flags.is_empty());
}

#[test]
fn last_flag_wins() {
    let io = Emitter::new(local_client());
    let (_, e) = io.json().volatile().emit(vec!["x"]);
    assert_eq!(vec![("volatile".to_string(), true)], e.opts.flags);
    let io = Emitter::new(local_client());
    let (_, e) = io.volatile().broadcast().emit(vec!["x"]);
    assert_eq!(vec![("broadcast".to_string(), true)], e.opts.flags);
    let io = Emitter::new(local_client());
    let (_, e) = io.broadcast().json().emit(vec!["x"]);
    assert_eq!(vec![("json".to_string(), true)], e.opts.flags);
}

#[test]
fn namespace_switch_forgets_rooms_and_flags() {
    let io = Emitter::new(local_client());
    let (_, e) = io.to("room1").json().of("/admin").emit(vec!["x"]);
    assert_eq!("socket.io#/admin#", e.channel);
    assert!(e.opts.rooms.is_empty());
    assert!(e.opts.flags.is_empty());
    assert_eq!("/admin", e.packet.nsp);
}

#[test]
fn manager_channel_does_not_change_adapter_channel() {
    let io = Emitter::new(local_client());
    let (_, e) = io.channel("custom").to("r").emit(vec!["x"]);
    assert_eq!("socket.io#/#r#", e.channel);
}

#[test]
fn event_channel_formula() {
    let rooms = vec!["lobby".to_string()];
    assert_eq!("pre#/ns#lobby#", build_event_channel("pre", "/ns", &rooms));
    assert_eq!("pre#/ns#", build_event_channel("pre", "/ns", &vec![]));
    let many = vec!["a".to_string(), "b".to_string()];
    assert_eq!("pre#/ns#", build_event_channel("pre", "/ns", &many));
}

#[test]
fn owned_texts_copies_arguments() {
    assert_eq!(vec!["a".to_string(), "".to_string()], owned_texts(&vec!["a", ""]));
    assert_eq!(2, EVENT_PACKET_TYPE);
}
