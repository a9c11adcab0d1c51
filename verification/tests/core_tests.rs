//! The library's core surface, driven through decoded shell replies.

use x_win::gnome_shell::GnomeVersion;
use x_win::json::Json;
use x_win::rpc::{CallOutcome, EvalOutcome, Payload, QueryOutcome};
use x_win::{
    empty_entity, get_active_window, get_browser_url, get_open_windows, get_window_icon, os_name,
    WindowInfo,
};

fn window_json(id: i64, title: &str) -> Json {
    Json::Obj(vec![
        ("id".to_string(), Json::Num(id)),
        ("os".to_string(), Json::Str("linux".to_string())),
        ("title".to_string(), Json::Str(title.to_string())),
        (
            "position".to_string(),
            Json::Obj(vec![
                ("x".to_string(), Json::Num(10)),
                ("y".to_string(), Json::Num(20)),
                ("width".to_string(), Json::Num(640)),
                ("height".to_string(), Json::Num(480)),
                ("isFullScreen".to_string(), Json::Bool(false)),
            ]),
        ),
        (
            "info".to_string(),
            Json::Obj(vec![
                ("process_id".to_string(), Json::Num(4242)),
                ("name".to_string(), Json::Str("editor".to_string())),
                ("path".to_string(), Json::Str("/usr/bin/editor".to_string())),
                ("exec_name".to_string(), Json::Str("editor".to_string())),
            ]),
        ),
        (
            "usage".to_string(),
            Json::Obj(vec![("memory".to_string(), Json::Num(1024))]),
        ),
    ])
}

fn icon_json() -> Json {
    Json::Obj(vec![
        (
            "data".to_string(),
            Json::Str("data:image/png;base64,iVBORw0KGgo=".to_string()),
        ),
        ("height".to_string(), Json::Num(128)),
        ("width".to_string(), Json::Num(128)),
    ])
}

fn test_struct(window_info: WindowInfo) -> Result<(), String> {
    assert_ne!(window_info.id, 0);
    assert_ne!(window_info.title, String::from(""));
    assert_eq!(window_info.os, r#"linux"#);
    Ok(())
}

#[test]
fn test_get_active_window() -> Result<(), String> {
    let v = GnomeVersion::new("45.2");
    let outcome = QueryOutcome::Extension(CallOutcome::Reply {
        payload: Payload::Parsed(window_json(7, "hello")),
    });
    let window_info = get_active_window(&v, &outcome).unwrap();
    test_struct(window_info)
}

#[test]
fn test_get_open_windows() -> Result<(), String> {
    let v = GnomeVersion::new("40.4");
    let outcome = QueryOutcome::Eval(EvalOutcome::Reply {
        success: true,
        payload: Payload::Parsed(Json::Arr(vec![window_json(7, "hello"), window_json(8, "other")])),
    });
    let open_windows = get_open_windows(&v, &outcome).unwrap();
    assert_ne!(open_windows.len(), 0);
    let window_info = open_windows.first().unwrap().to_owned();
    test_struct(window_info)
}

#[test]
fn test_os_name() -> Result<(), String> {
    let os_name = os_name();
    assert_eq!(os_name, "linux");
    Ok(())
}

#[test]
fn test_empty_entity() -> Result<(), String> {
    let window_info = empty_entity();
    assert_eq!(window_info.id, 0);
    assert_eq!(window_info.title, String::from(""));
    assert_eq!(window_info.os, "linux");
    Ok(())
}

#[test]
fn test_get_window_icon() -> Result<(), String> {
    let v = GnomeVersion::new("45.2");
    let active = QueryOutcome::Extension(CallOutcome::Reply {
        payload: Payload::Parsed(window_json(7, "hello")),
    });
    let window_info: &WindowInfo = &get_active_window(&v, &active).unwrap();
    let reply = QueryOutcome::Extension(CallOutcome::Reply {
        payload: Payload::Parsed(icon_json()),
    });
    let icon_info = get_window_icon(&v, window_info, &reply).unwrap();
    assert_ne!(icon_info.data, "");
    assert_ne!(icon_info.height, 0);
    assert_ne!(icon_info.width, 0);
    let open = QueryOutcome::Extension(CallOutcome::Reply {
        payload: Payload::Parsed(Json::Arr(vec![window_json(7, "hello")])),
    });
    let open_windows = &get_open_windows(&v, &open).unwrap();
    assert_ne!(open_windows.len(), 0);
    let window_info = open_windows.first().unwrap().to_owned();
    let reply = QueryOutcome::Extension(CallOutcome::Reply {
        payload: Payload::Parsed(icon_json()),
    });
    let icon_info = get_window_icon(&v, &window_info, &reply).unwrap();
    assert_ne!(icon_info.data, "");
    assert_ne!(icon_info.height, 0);
    assert_ne!(icon_info.width, 0);
    Ok(())
}

#[test]
fn test_get_brower_url() -> Result<(), String> {
    let v = GnomeVersion::new("45.2");
    let open = QueryOutcome::Extension(CallOutcome::Reply {
        payload: Payload::Parsed(Json::Arr(vec![window_json(7, "hello")])),
    });
    let open_windows = &get_open_windows(&v, &open).unwrap();
    assert_ne!(open_windows.len(), 0);
    let window_info = open_windows.first().unwrap().to_owned();
    let url = get_browser_url(&window_info).unwrap();
    assert!(url.eq("URL recovery not supported on Linux distribution!"));
    let active = QueryOutcome::Extension(CallOutcome::Reply {
        payload: Payload::Parsed(window_json(7, "hello")),
    });
    let window_info = &get_active_window(&v, &active).unwrap().to_owned();
    let url = get_browser_url(window_info).unwrap();
    assert!(url.eq("URL recovery not supported on Linux distribution!"));
    Ok(())
}
