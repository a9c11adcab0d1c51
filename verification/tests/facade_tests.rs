//! Facade routing, transport outcome handling and extension lifecycle.

use x_win::api::empty_entity;
use x_win::error::{ErrorKind, XWinError};
use x_win::gnome_shell::{
    GnomeVersion, GNOME45_XWIN_EXTENSION_SCRIPT, GNOME_XWIN_EVAL_SCRIPT,
    GNOME_XWIN_EXTENSION_COMMON_SCRIPT, GNOME_XWIN_EXTENSION_META, GNOME_XWIN_EXTENSION_SCRIPT,
    GNOME_XWIN_GET_ICON_SCRIPT,
};
use x_win::json::Json;
use x_win::rpc::{CallOutcome, EvalOutcome, Payload, QueryRequest, ToggleOutcome};
use x_win::wayland_api::{
    disable_extension, disable_extension_request, enable_extension, enable_extension_request,
    get_active_window_request, get_app_icon_query, get_open_windows_request, install_extension,
    is_enabled_extension, is_installed_extension, uninstall_extension, IconPlan, InstallPlan,
};
use x_win::{wayland_eval_api, wayland_extension_api, wayland_new_api};

#[test]
fn legacy_eval_routes_through_script_concatenation() {
    let v = GnomeVersion::new("40.2");
    match get_active_window_request(&v) {
        QueryRequest::Eval { script } => {
            assert_eq!(
                script,
                format!("\n{}\nget_active_window();\n", GNOME_XWIN_EVAL_SCRIPT)
            );
        }
        QueryRequest::Extension { .. } => panic!("routed to the extension backend"),
    }
    match get_open_windows_request(&v) {
        QueryRequest::Eval { script } => {
            assert_eq!(
                script,
                format!("\n{}\n\nget_open_windows();\n", GNOME_XWIN_EVAL_SCRIPT)
            );
        }
        QueryRequest::Extension { .. } => panic!("routed to the extension backend"),
    }
}

#[test]
fn modern_shell_routes_through_extension_methods() {
    let v = GnomeVersion::new("45.2");
    match get_active_window_request(&v) {
        QueryRequest::Extension { method, arg } => {
            assert_eq!(method, "get_active_window");
            assert_eq!(arg, None);
        }
        QueryRequest::Eval { .. } => panic!("routed to the eval backend"),
    }
    match get_app_icon_query(&v, &window_with_id(9)) {
        IconPlan::Request(QueryRequest::Extension { method, arg }) => {
            assert_eq!(method, "get_icon");
            assert_eq!(arg, Some(9));
        }
        _ => panic!("expected an extension request"),
    }
}

fn window_with_id(id: u32) -> x_win::WindowInfo {
    let mut w = empty_entity();
    w.id = id;
    w
}

#[test]
fn zero_id_icon_query_never_calls() {
    for text in ["40.2", "45.2"] {
        let v = GnomeVersion::new(text);
        match get_app_icon_query(&v, &empty_entity()) {
            IconPlan::Done(icon) => {
                assert_eq!(icon.data, "");
                assert_eq!(icon.height, 0);
                assert_eq!(icon.width, 0);
            }
            IconPlan::Request(_) => panic!("a request was issued for a null window"),
        }
    }
    match wayland_eval_api::get_icon_query(&empty_entity()) {
        wayland_eval_api::IconQuery::Done(icon) => assert_eq!(icon.data, ""),
        wayland_eval_api::IconQuery::Script(_) => panic!("a script was built for a null window"),
    }
    match wayland_extension_api::get_icon_query(&empty_entity()) {
        wayland_extension_api::IconQuery::Done(icon) => assert_eq!(icon.width, 0),
        wayland_extension_api::IconQuery::Call { .. } => {
            panic!("a call was planned for a null window")
        }
    }
}

#[test]
fn icon_script_embeds_the_window_id() {
    let script = wayland_eval_api::get_icon_script(12345);
    assert_eq!(
        script,
        format!(
            "\n{}\n{}\nget_icon(12345);\n",
            GNOME_XWIN_EVAL_SCRIPT, GNOME_XWIN_GET_ICON_SCRIPT
        )
    );
}

#[test]
fn toggle_on_unreachable_bus_is_a_connection_error() {
    let r = wayland_extension_api::toggle_extension(&ToggleOutcome::NoConnection);
    match r {
        Err(e) => assert_eq!(e.kind, ErrorKind::Connection),
        Ok(_) => panic!("an unreachable bus must not report a quiet boolean"),
    }
    let v = GnomeVersion::new("45.2");
    let r = enable_extension(&v, Some(&ToggleOutcome::NoConnection));
    assert_eq!(r.unwrap_err().kind, ErrorKind::Connection);
    let r = disable_extension(&v, Some(&ToggleOutcome::NoConnection));
    assert_eq!(r.unwrap_err().kind, ErrorKind::Connection);
}

#[test]
fn toggle_outcomes() {
    assert_eq!(
        wayland_extension_api::toggle_extension(&ToggleOutcome::Reply { value: true }).unwrap(),
        true
    );
    assert_eq!(
        wayland_extension_api::toggle_extension(&ToggleOutcome::Reply { value: false }).unwrap(),
        false
    );
    assert_eq!(
        wayland_extension_api::toggle_extension(&ToggleOutcome::EmptyReply)
            .unwrap_err()
            .kind,
        ErrorKind::ToggleFailed
    );
    assert_eq!(
        wayland_extension_api::toggle_extension(&ToggleOutcome::BadReply)
            .unwrap_err()
            .kind,
        ErrorKind::MalformedPayload
    );
    assert_eq!(wayland_extension_api::toggle_extension_method(true), "EnableExtension");
    assert_eq!(wayland_extension_api::toggle_extension_method(false), "DisableExtension");
}

#[test]
fn lifecycle_is_gated_on_the_eval_generation() {
    let v = GnomeVersion::new("40.2");
    assert!(matches!(install_extension(&v), InstallPlan::NotNeeded));
    assert_eq!(uninstall_extension(&v, true).unwrap(), false);
    assert_eq!(enable_extension_request(&v), None);
    assert_eq!(disable_extension_request(&v), None);
    assert_eq!(enable_extension(&v, None).unwrap(), false);
    assert_eq!(disable_extension(&v, None).unwrap(), false);
    assert_eq!(is_installed_extension(&v, None).unwrap(), false);
    assert_eq!(is_enabled_extension(&v, None).unwrap(), false);
}

#[test]
fn install_artifact_matches_the_generation() {
    let v = GnomeVersion::new("42.1");
    match install_extension(&v) {
        InstallPlan::Write(a) => {
            assert_eq!(
                a.extension_js,
                format!(
                    "{}\n\n{}\n\n{}\n",
                    GNOME_XWIN_EXTENSION_SCRIPT,
                    GNOME_XWIN_EXTENSION_COMMON_SCRIPT,
                    GNOME_XWIN_GET_ICON_SCRIPT
                )
            );
            assert_eq!(a.metadata_json, GNOME_XWIN_EXTENSION_META);
        }
        InstallPlan::NotNeeded => panic!("an extension generation must install"),
    }
    let v = GnomeVersion::new("46.0");
    match install_extension(&v) {
        InstallPlan::Write(a) => {
            assert_eq!(
                a.extension_js,
                format!(
                    "{}\n\n{}\n\n{}\n",
                    GNOME45_XWIN_EXTENSION_SCRIPT,
                    GNOME_XWIN_EXTENSION_COMMON_SCRIPT,
                    GNOME_XWIN_GET_ICON_SCRIPT
                )
            );
        }
        InstallPlan::NotNeeded => panic!("an extension generation must install"),
    }
    assert_eq!(enable_extension_request(&v), Some("EnableExtension"));
    assert_eq!(disable_extension_request(&v), Some("DisableExtension"));
}

#[test]
fn extension_paths() {
    assert_eq!(
        wayland_extension_api::get_extension_path("/home/u"),
        "/home/u/.local/share/gnome-shell/extensions/x-win@miniben90.org"
    );
    assert_eq!(
        wayland_extension_api::get_extension_file_path("/home/u"),
        "/home/u/.local/share/gnome-shell/extensions/x-win@miniben90.org/extension.js"
    );
    assert_eq!(
        wayland_extension_api::get_medata_file_path("/home/u"),
        "/home/u/.local/share/gnome-shell/extensions/x-win@miniben90.org/metadata.json"
    );
}

#[test]
fn install_write_failures_are_structured_errors() {
    assert_eq!(
        wayland_extension_api::install_extension_result("/home/u", true, true).unwrap(),
        true
    );
    let e = wayland_extension_api::install_extension_result("/home/u", false, true).unwrap_err();
    match &e.kind {
        ErrorKind::WriteFailed { path } => {
            assert!(path.ends_with("/extension.js"));
            assert!(e.message().contains("extension.js"));
        }
        _ => panic!("expected a write failure"),
    }
    let e = wayland_extension_api::install_extension_result("/home/u", true, false).unwrap_err();
    match &e.kind {
        ErrorKind::WriteFailed { path } => assert!(path.ends_with("/metadata.json")),
        _ => panic!("expected a write failure"),
    }
}

#[test]
fn installed_state_outcomes() {
    let v = GnomeVersion::new("45.2");
    let r = is_installed_extension(&v, Some(&CallOutcome::NoConnection));
    assert_eq!(r.unwrap_err().kind, ErrorKind::Connection);
    assert_eq!(is_installed_extension(&v, Some(&CallOutcome::CallFailed)).unwrap(), false);
    assert_eq!(is_installed_extension(&v, Some(&CallOutcome::EmptyReply)).unwrap(), false);
    assert_eq!(
        is_installed_extension(
            &v,
            Some(&CallOutcome::Reply { payload: Payload::Empty })
        )
        .unwrap(),
        false
    );
    assert_eq!(
        is_installed_extension(
            &v,
            Some(&CallOutcome::Reply { payload: Payload::Parsed(Json::Obj(vec![])) })
        )
        .unwrap(),
        true
    );
}

#[test]
fn enabled_state_outcomes() {
    let v = GnomeVersion::new("45.2");
    let enabled = Json::Obj(vec![("enabled".to_string(), Json::Bool(true))]);
    let r = is_enabled_extension(&v, Some(&CallOutcome::Reply { payload: Payload::Parsed(enabled) }));
    assert_eq!(r.unwrap(), true);
    let disabled = Json::Obj(vec![("enabled".to_string(), Json::Bool(false))]);
    let r = is_enabled_extension(&v, Some(&CallOutcome::Reply { payload: Payload::Parsed(disabled) }));
    assert_eq!(r.unwrap(), false);
    let missing = Json::Obj(vec![("state".to_string(), Json::Num(1))]);
    let r = is_enabled_extension(&v, Some(&CallOutcome::Reply { payload: Payload::Parsed(missing) }));
    assert_eq!(r.unwrap_err().kind, ErrorKind::InfoUnavailable);
    let r = is_enabled_extension(&v, Some(&CallOutcome::Reply { payload: Payload::Malformed }));
    assert_eq!(r.unwrap_err().kind, ErrorKind::MalformedPayload);
    let r = is_enabled_extension(&v, Some(&CallOutcome::Reply { payload: Payload::Empty }));
    assert_eq!(r.unwrap_err().kind, ErrorKind::InfoUnavailable);
    let r = is_enabled_extension(&v, Some(&CallOutcome::EmptyReply));
    assert_eq!(r.unwrap_err().kind, ErrorKind::InfoUnavailable);
}

#[test]
fn wayland_session_detection() {
    assert!(x_win::linux::is_wayland_desktop(Some("wayland-0")));
    assert!(!x_win::linux::is_wayland_desktop(Some("")));
    assert!(!x_win::linux::is_wayland_desktop(None));
}

#[test]
fn eval_transport_failures() {
    let flag_false = EvalOutcome::Reply { success: false, payload: Payload::Empty };
    let e = wayland_eval_api::get_active_window(&flag_false).unwrap_err();
    assert_eq!(e.kind, ErrorKind::EvalFailed);
    let e = wayland_eval_api::get_active_window(&EvalOutcome::NoConnection).unwrap_err();
    assert_eq!(e.kind, ErrorKind::Connection);
    let empty = EvalOutcome::Reply { success: true, payload: Payload::Empty };
    let w = wayland_eval_api::get_active_window(&empty).unwrap();
    assert_eq!(w.id, 0);
    assert_eq!(w.os, "linux");
}

#[test]
fn extension_transport_failures() {
    let e = wayland_extension_api::get_active_window(&CallOutcome::NoConnection).unwrap_err();
    assert_eq!(e.kind, ErrorKind::Connection);
    let e = wayland_extension_api::get_active_window(&CallOutcome::CallFailed).unwrap_err();
    assert_eq!(e.kind, ErrorKind::ExtensionUnavailable);
    let e = wayland_extension_api::get_active_window(&CallOutcome::EmptyReply).unwrap_err();
    assert_eq!(e.kind, ErrorKind::NoReply);
    let no_data = CallOutcome::Reply { payload: Payload::Parsed(Json::Num(1)) };
    let e = wayland_extension_api::get_active_window(&no_data).unwrap_err();
    assert_eq!(e.kind, ErrorKind::NoData);
    let non_array = CallOutcome::Reply { payload: Payload::Parsed(Json::Num(1)) };
    let ws = wayland_extension_api::get_open_windows(&non_array).unwrap();
    assert_eq!(ws.len(), 0);
}

#[test]
fn extension_empty_reply_string_is_benign() {
    let empty = CallOutcome::Reply { payload: Payload::Empty };
    let w = wayland_extension_api::get_active_window(&empty).unwrap();
    assert_eq!(w.id, 0);
    assert_eq!(w.os, "linux");
    let empty = CallOutcome::Reply { payload: Payload::Empty };
    let ws = wayland_extension_api::get_open_windows(&empty).unwrap();
    assert_eq!(ws.len(), 0);
    let empty = CallOutcome::Reply { payload: Payload::Empty };
    let icon = wayland_extension_api::get_icon(&window_with_id(9), &empty).unwrap();
    assert_eq!(icon.data, "");
    assert_eq!(icon.height, 0);
    assert_eq!(icon.width, 0);
}

#[test]
fn error_messages_name_the_failure() {
    assert_eq!(
        XWinError::new(ErrorKind::EvalFailed).message(),
        "Not possible to execute eval gnome shell"
    );
    assert_eq!(
        XWinError::new(ErrorKind::NoData).message(),
        "No data founded for active window"
    );
    assert!(XWinError::new(ErrorKind::NoReply)
        .message()
        .contains("XWinWaylandExtension"));
    assert!(XWinError::new(ErrorKind::InfoUnavailable)
        .message()
        .contains("x-win@miniben90.org"));
}

#[test]
fn stub_backend_reports_nothing() {
    let w = wayland_new_api::get_active_window();
    assert_eq!(w.id, 0);
    assert_eq!(w.os, "linux");
    assert_eq!(wayland_new_api::get_open_windows().len(), 0);
}
