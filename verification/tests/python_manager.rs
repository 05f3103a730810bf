use serde_json::Value;
use socketio_emitter::emitter::Emitter;
use socketio_emitter::python::{assemble_message, build_message, JsonPublication};

fn local_client() -> redis::Client {
    redis::Client::open("redis://127.0.0.1:6379/0").unwrap()
}

fn key_value() -> String {
    let mut m = serde_json::Map::new();
    m.insert("key".to_string(), Value::String("value".to_string()));
    Value::Object(m).to_string()
}

fn one_two_three() -> String {
    Value::Array(vec![Value::from(1), Value::from(2), Value::from(3)]).to_string()
}

fn messages(r: Vec<JsonPublication>) -> Vec<String> {
    r.into_iter().map(|p| p.message).collect()
}

#[test]
fn test_emit_json() {
    let emitter = Emitter::new(local_client());
    let (_, published) = emitter.to("room").emit_json("my_event", &key_value());
    assert_eq!("socketio", published[0].channel);
    assert_eq!(
        published.into_iter().map(|p| p.message).collect::<Vec<_>>(),
        vec![
            r#"{"callback":null,"data":{"key":"value"},"event":"my_event","host_id":null,"method":"emit","namespace":"/","room":"room","skip_sid":null}"#
        ]
    );
}

#[test]
fn test_custom_channel() {
    let emitter = Emitter::new(local_client()).channel("custom_channel");
    let (_, published) = emitter.to("room").emit_json("my_event", &key_value());
    assert_eq!(1, published.len());
    assert_eq!("custom_channel", published[0].channel);
    assert_eq!(
        published.into_iter().map(|p| p.message).collect::<Vec<_>>(),
        vec![
            r#"{"callback":null,"data":{"key":"value"},"event":"my_event","host_id":null,"method":"emit","namespace":"/","room":"room","skip_sid":null}"#
        ]
    );
}

#[test]
fn test_no_room() {
    let emitter = Emitter::new(local_client());
    let (_, published) = emitter.emit_json("my_event", &key_value());
    assert_eq!(
        messages(published),
        vec![
            r#"{"callback":null,"data":{"key":"value"},"event":"my_event","host_id":null,"method":"emit","namespace":"/","room":null,"skip_sid":null}"#
        ]
    );
}

#[test]
fn test_array_data() {
    let emitter = Emitter::new(local_client());
    let (_, published) = emitter.emit_json("my_event", &one_two_three());
    assert_eq!(
        messages(published),
        vec![
            r#"{"callback":null,"data":[1,2,3],"event":"my_event","host_id":null,"method":"emit","namespace":"/","room":null,"skip_sid":null}"#
        ]
    );
}

#[test]
fn one_message_per_room_in_order() {
    let emitter = Emitter::new(local_client()).to("r1").to("r2");
    let (emitter, published) = emitter.emit_json("ev", "null");
    assert_eq!(2, published.len());
    assert!(published[0].message.contains(r#""room":"r1""#));
    assert!(published[1].message.contains(r#""room":"r2""#));
    // the rooms stay addressed after a JSON emission
    let (_, again) = emitter.emit_json("ev", "null");
    assert_eq!(published, again);
}

#[test]
fn namespace_of_json_emission() {
    let emitter = Emitter::new(local_client()).of("/chat");
    let (_, published) = emitter.emit_json("ev", "true");
    assert_eq!(
        messages(published),
        vec![r#"{"callback":null,"data":true,"event":"ev","host_id":null,"method":"emit","namespace":"/chat","room":null,"skip_sid":null}"#]
    );
}

#[test]
fn namespace_switch_resets_manager_channel() {
    let emitter = Emitter::new(local_client()).channel("custom").of("/x");
    let (_, published) = emitter.emit_json("ev", "1");
    assert_eq!("socketio", published[0].channel);
}

#[test]
fn strings_are_escaped_as_json() {
    let m = build_message("say \"hi\"\n", "0", "/", Some("a\\b"));
    assert_eq!(
        r#"{"callback":null,"data":0,"event":"say \"hi\"\n","host_id":null,"method":"emit","namespace":"/","room":"a\\b","skip_sid":null}"#,
        m
    );
}

#[test]
fn control_characters_are_escaped_in_hex() {
    let m = build_message("\u{1}\u{1f}\u{8}\u{c}\r\t\u{7f}é", "0", "/", None);
    assert_eq!(
        "{\"callback\":null,\"data\":0,\"event\":\"\\u0001\\u001f\\b\\f\\r\\t\u{7f}é\",\"host_id\":null,\"method\":\"emit\",\"namespace\":\"/\",\"room\":null,\"skip_sid\":null}",
        m
    );
}

#[test]
fn message_assembly_from_json_texts() {
    assert_eq!(
        r#"{"callback":null,"data":[1],"event":"e","host_id":null,"method":"emit","namespace":"/n","room":"r","skip_sid":null}"#,
        assemble_message("[1]", "\"e\"", "\"/n\"", "\"r\"")
    );
}
