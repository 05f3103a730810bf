use socketio_emitter::emitter::{create_emitter, Emitter, EmitterOpts, IntoEmitter};
use socketio_emitter::text::i32_to_decimal;

#[test]
fn decimal_rendering() {
    assert_eq!("0", i32_to_decimal(0));
    assert_eq!("6379", i32_to_decimal(6379));
    assert_eq!("-42", i32_to_decimal(-42));
    assert_eq!("-2147483648", i32_to_decimal(i32::MIN));
    assert_eq!("2147483647", i32_to_decimal(i32::MAX));
}

#[test]
fn emitter_from_options_uses_key_prefix() {
    let opts = EmitterOpts {
        host: "localhost".to_string(),
        port: 6379,
        socket: None,
        key: Some("myapp"),
    };
    let io = Emitter::new(opts);
    assert_eq!("localhost:6379", io.client().get_connection_info().addr.to_string());
    let (_, e) = io.emit(vec!["x"]);
    assert_eq!("myapp#/#", e.channel);
}

#[test]
fn emitter_from_options_default_prefix() {
    let opts = EmitterOpts {
        host: "localhost".to_string(),
        port: 6380,
        ..Default::default()
    };
    let io = Emitter::try_new(opts).unwrap();
    let info = io.client().get_connection_info();
    assert_eq!("localhost:6380", info.addr.to_string());
    let (_, e) = io.emit(vec![]);
    assert_eq!("socket.io#/#", e.channel);
}

#[test]
fn emitter_from_address() {
    let io = Emitter::new("127.0.0.1:7000");
    assert_eq!("127.0.0.1:7000", io.client().get_connection_info().addr.to_string());
    let (_, e) = io.emit(vec![]);
    assert_eq!("socket.io#/#", e.channel);
}

#[test]
fn refused_addresses() {
    let opts = EmitterOpts {
        host: "".to_string(),
        port: 6379,
        ..Default::default()
    };
    assert!(opts.try_into_emitter().is_none());
    let opts = EmitterOpts {
        host: "localhost".to_string(),
        port: -1,
        ..Default::default()
    };
    assert!(Emitter::try_new(opts).is_none());
    assert!(Emitter::try_new("localhost/notadb").is_none());
}

#[test]
fn emitter_from_client() {
    let client = redis::Client::open("redis://example.org:1234").unwrap();
    let io = client.into_emitter();
    assert_eq!("example.org:1234", io.client().get_connection_info().addr.to_string());
}

#[test]
fn create_emitter_with_prefix_and_namespace() {
    let client = redis::Client::open("redis://127.0.0.1/").unwrap();
    let io = create_emitter(client, "pfx", "/room");
    let (_, e) = io.to("r").emit(vec!["a"]);
    assert_eq!("pfx#/room#r#", e.channel);
    assert_eq!("/room", e.packet.nsp);
}

#[test]
fn emitter_keeps_identity_across_operations() {
    let client = redis::Client::open("redis://127.0.0.1/").unwrap();
    let io = create_emitter(client, "k", "/");
    let (io, e) = io.to("a").json().emit(vec![]);
    assert_eq!("k#/#a#", e.channel);
    let (io, e) = io.of("/n").channel("c").volatile().emit(vec![]);
    assert_eq!("k#/n#", e.channel);
    assert_eq!("emitter", e.uid);
    let (_, e) = io.to("b").emit(vec![]);
    assert_eq!("k#/n#b#", e.channel);
}
