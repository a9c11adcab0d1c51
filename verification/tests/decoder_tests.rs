//! Response decoding: schema defaults, structural strictness, numeric
//! coercion and the encode/decode round trip.

use x_win::decoder::{
    number_to_i32, number_to_u32, value_to_icon_info, value_to_window_info, value_to_window_list,
    window_info_to_value,
};
use x_win::error::ErrorKind;
use x_win::json::Json;
use x_win::x_win_struct::process_info::ProcessInfo;
use x_win::x_win_struct::usage_info::UsageInfo;
use x_win::x_win_struct::window_info::WindowInfo;
use x_win::x_win_struct::window_position::WindowPosition;

/// Turns a parsed document into the library's JSON model, truncating every
/// number toward zero — the same conversion the process boundary performs
/// before a reply reaches the library.
fn convert(v: &serde_json::Value) -> Json {
    match v {
        serde_json::Value::Null => Json::Null,
        serde_json::Value::Bool(b) => Json::Bool(*b),
        serde_json::Value::Number(n) => Json::Num(
            n.as_i64()
                .or_else(|| n.as_u64().map(|u| u.min(i64::MAX as u64) as i64))
                .or_else(|| n.as_f64().map(|f| f as i64))
                .unwrap_or(0),
        ),
        serde_json::Value::String(s) => Json::Str(s.clone()),
        serde_json::Value::Array(a) => Json::Arr(a.iter().map(convert).collect()),
        serde_json::Value::Object(o) => {
            Json::Obj(o.iter().map(|(k, x)| (k.clone(), convert(x))).collect())
        }
    }
}

fn parse(text: &str) -> Json {
    convert(&serde_json::from_str::<serde_json::Value>(text).unwrap())
}

fn sample_window() -> WindowInfo {
    WindowInfo::new(
        7,
        "linux".to_string(),
        "hello".to_string(),
        WindowPosition::new(10, -20, 640, 480, true),
        ProcessInfo::new(
            4242,
            "/usr/bin/editor".to_string(),
            "editor".to_string(),
            "editor".to_string(),
        ),
        UsageInfo::new(1024),
    )
}

#[test]
fn decode_float_encoded_numbers_coerce() {
    let payload = parse(
        r#"{"id": 5.0, "os": "linux", "title": "x",
            "info": {"process_id": 42.0, "name": "n", "path": "/p", "exec_name": "e"},
            "position": {"x": 1.0, "y": 2.0, "width": 3.0, "height": 4.0, "isFullScreen": false},
            "usage": {"memory": 1024.0}}"#,
    );
    let w = value_to_window_info(&payload).unwrap();
    assert_eq!(w.id, 5);
    assert_eq!(w.usage.memory, 1024);
    assert_eq!(w.info.process_id, 42);
    assert_eq!(w.position.x, 1);
    assert_eq!(w.position.height, 4);
}

#[test]
fn decode_integer_encoded_numbers() {
    let payload = parse(
        r#"{"id": 5, "os": "linux", "title": "x",
            "info": {"process_id": 42, "name": "n", "path": "/p", "exec_name": "e"},
            "position": {"x": 1, "y": 2, "width": 3, "height": 4, "isFullScreen": true},
            "usage": {"memory": 1024}}"#,
    );
    let w = value_to_window_info(&payload).unwrap();
    assert_eq!(w.id, 5);
    assert_eq!(w.usage.memory, 1024);
    assert!(w.position.is_full_screen);
}

#[test]
fn decode_missing_position_fails() {
    let payload = parse(
        r#"{"id": 5, "os": "linux", "title": "x",
            "info": {"process_id": 42, "name": "n", "path": "/p", "exec_name": "e"},
            "usage": {"memory": 1024}}"#,
    );
    let e = value_to_window_info(&payload).unwrap_err();
    assert_eq!(e.kind, ErrorKind::MalformedPayload);
}

#[test]
fn decode_non_object_fails() {
    let e = value_to_window_info(&Json::Num(3)).unwrap_err();
    assert_eq!(e.kind, ErrorKind::MalformedPayload);
    let e = value_to_window_info(&parse("[1, 2]")).unwrap_err();
    assert_eq!(e.kind, ErrorKind::MalformedPayload);
}

#[test]
fn decode_missing_leaves_default() {
    let payload = parse(r#"{"position": {}, "info": {}, "usage": {}}"#);
    let w = value_to_window_info(&payload).unwrap();
    assert_eq!(w.id, 0);
    assert_eq!(w.os, "");
    assert_eq!(w.title, "");
    assert_eq!(w.position.x, 0);
    assert!(!w.position.is_full_screen);
    assert_eq!(w.info.path, "");
    assert_eq!(w.usage.memory, 0);
}

#[test]
fn decode_wrongly_typed_leaves_default() {
    let payload = parse(
        r#"{"id": "seven", "os": 3, "title": null,
            "info": {"process_id": [], "name": 1, "path": {}, "exec_name": false},
            "position": {"x": "a", "y": null, "width": {}, "height": [], "isFullScreen": 1},
            "usage": {"memory": "much"}}"#,
    );
    let w = value_to_window_info(&payload).unwrap();
    assert_eq!(w.id, 0);
    assert_eq!(w.os, "");
    assert_eq!(w.title, "");
    assert_eq!(w.position.x, 0);
    assert!(!w.position.is_full_screen);
    assert_eq!(w.usage.memory, 0);
}

#[test]
fn window_round_trip() {
    let w = sample_window();
    let doc = window_info_to_value(&w);
    let back = value_to_window_info(&doc).unwrap();
    assert_eq!(back, w);
}

#[test]
fn window_round_trip_through_float_text() {
    let payload = parse(
        r#"{"id": 7.0, "os": "linux", "title": "hello",
            "info": {"process_id": 4242.0, "name": "editor", "path": "/usr/bin/editor", "exec_name": "editor"},
            "position": {"x": 10.0, "y": -20.0, "width": 640.0, "height": 480.0, "isFullScreen": true},
            "usage": {"memory": 1024.0}}"#,
    );
    let w = value_to_window_info(&payload).unwrap();
    assert_eq!(w, sample_window());
    let doc = window_info_to_value(&w);
    let back = value_to_window_info(&doc).unwrap();
    assert_eq!(back, w);
}

#[test]
fn number_conversions() {
    assert_eq!(number_to_u32(&Json::Num(5)), 5);
    assert_eq!(number_to_u32(&Json::Num(-1)), 0);
    assert_eq!(number_to_u32(&Json::Num(4294967295)), u32::MAX);
    assert_eq!(number_to_u32(&Json::Num(4294967296)), 0);
    assert_eq!(number_to_u32(&Json::Str("5".to_string())), 0);
    assert_eq!(number_to_i32(&Json::Num(-7)), -7);
    assert_eq!(number_to_i32(&Json::Num(i64::from(i32::MAX) + 1)), 0);
    assert_eq!(number_to_i32(&Json::Num(i64::from(i32::MIN))), i32::MIN);
    assert_eq!(number_to_i32(&Json::Null), 0);
}

#[test]
fn icon_decoding() {
    let payload = parse(r#"{"data": "data:image/png;base64,AA==", "width": 32, "height": 16.0}"#);
    let icon = value_to_icon_info(&payload).unwrap();
    assert_eq!(icon.data, "data:image/png;base64,AA==");
    assert_eq!(icon.width, 32);
    assert_eq!(icon.height, 16);
    let empty = value_to_icon_info(&parse("{}")).unwrap();
    assert_eq!(empty.data, "");
    assert_eq!(empty.height, 0);
    let e = value_to_icon_info(&parse("[]")).unwrap_err();
    assert_eq!(e.kind, ErrorKind::MalformedPayload);
}

#[test]
fn window_list_decoding() {
    let ok = parse(
        r#"[{"id": 1, "position": {}, "info": {}, "usage": {}},
            {"id": 2, "position": {}, "info": {}, "usage": {}}]"#,
    );
    if let Json::Arr(items) = ok {
        let ws = value_to_window_list(&items).unwrap();
        assert_eq!(ws.len(), 2);
        assert_eq!(ws[0].id, 1);
        assert_eq!(ws[1].id, 2);
    } else {
        panic!("expected an array");
    }
    let broken = parse(r#"[{"id": 1, "position": {}, "info": {}, "usage": {}}, 3]"#);
    if let Json::Arr(items) = broken {
        let e = value_to_window_list(&items).unwrap_err();
        assert_eq!(e.kind, ErrorKind::MalformedPayload);
    } else {
        panic!("expected an array");
    }
}
