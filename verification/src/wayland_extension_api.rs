//! Extension backend and lifecycle: shells 41 and later.
//!
//! On these shells the query scripts are installed once as a shell
//! extension, and every query is a direct method call on the extension's
//! exported interface. This module decides what every call outcome means,
//! materializes the extension artifact for the installed shell generation,
//! and manages the extension's enabled state through the shell's extension
//! interface.

use vstd::prelude::*;

use crate::api::{empty_icon, empty_icon_view, init_entity, empty_entity_view};
use crate::decoder::{
    icon_of_json, value_to_icon_info, value_to_window_info, value_to_window_list, window_of_json,
    window_views, windows_of_list,
};
use crate::error::{ErrorKind, XWinError};
use crate::gnome_shell::{
    GnomeVersion, GNOME45_XWIN_EXTENSION_SCRIPT, GNOME_XWIN_EXTENSION_COMMON_SCRIPT,
    GNOME_XWIN_EXTENSION_FOLDER_PATH, GNOME_XWIN_EXTENSION_META, GNOME_XWIN_EXTENSION_SCRIPT,
    GNOME_XWIN_GET_ICON_SCRIPT,
};
use crate::json::{obj_get, obj_lookup, Json};
use crate::rpc::{CallOutcome, Payload, ToggleOutcome};
use crate::x_win_struct::icon_info::{IconInfo, IconInfoView};
use crate::x_win_struct::window_info::{WindowInfo, WindowInfoView};

verus! {

/// What a call on the extension's exported interface yields before any
/// decoding: the reply's string body, or an error. A missing bus connection
/// is surfaced as such; a failed call means the extension is unreachable; a
/// reply without a body says nothing at all. A body that holds the empty
/// string is not an error: each query degrades it to its benign empty
/// result.
pub open spec fn ext_call_result(o: CallOutcome) -> Result<Payload, ErrorKind> {
    match o {
        CallOutcome::NoConnection => Err(ErrorKind::Connection),
        CallOutcome::CallFailed => Err(ErrorKind::ExtensionUnavailable),
        CallOutcome::EmptyReply => Err(ErrorKind::NoReply),
        CallOutcome::Reply { payload } => Ok(payload),
    }
}

/// Decides what one extension-method outcome means, as [`ext_call_result`]
/// describes.
pub fn call_script<'a>(outcome: &'a CallOutcome) -> (r: Result<&'a Payload, XWinError>)
    ensures
        match ext_call_result(*outcome) {
            Ok(p) => r matches Ok(q) && *q == p,
            Err(k) => r matches Err(e) && e.kind == k,
        },
{
    match outcome {
        CallOutcome::NoConnection => Err(XWinError::new(ErrorKind::Connection)),
        CallOutcome::CallFailed => Err(XWinError::new(ErrorKind::ExtensionUnavailable)),
        CallOutcome::EmptyReply => Err(XWinError::new(ErrorKind::NoReply)),
        CallOutcome::Reply { payload } => Ok(payload),
    }
}

/// Decides what one outcome of a method taking an argument means; the
/// argument shapes the request, never the reply, so the decision is the one
/// [`ext_call_result`] describes.
pub fn call_script_arg<'a>(outcome: &'a CallOutcome) -> (r: Result<&'a Payload, XWinError>)
    ensures
        match ext_call_result(*outcome) {
            Ok(p) => r matches Ok(q) && *q == p,
            Err(k) => r matches Err(e) && e.kind == k,
        },
{
    call_script(outcome)
}

/// The window record an active-window call yields for one outcome: an
/// empty reply string degrades to the empty record, a reply that is valid
/// JSON but no object holds no data, and a structurally broken object is
/// malformed.
pub open spec fn active_window_result(o: CallOutcome) -> Result<WindowInfoView, ErrorKind> {
    match ext_call_result(o) {
        Err(k) => Err(k),
        Ok(payload) => match payload {
            Payload::Malformed => Err(ErrorKind::MalformedPayload),
            Payload::Parsed(j) => match j {
                Json::Obj(fields) => match window_of_json(Json::Obj(fields)) {
                    Some(w) => Ok(w),
                    None => Err(ErrorKind::MalformedPayload),
                },
                _ => Err(ErrorKind::NoData),
            },
            Payload::Empty => Ok(empty_entity_view()),
        },
    }
}

/// Decodes an active-window reply, exactly as [`active_window_result`]
/// describes.
pub fn get_active_window(outcome: &CallOutcome) -> (r: Result<WindowInfo, XWinError>)
    ensures
        match active_window_result(*outcome) {
            Ok(wv) => r matches Ok(w) && w@ == wv,
            Err(k) => r matches Err(e) && e.kind == k,
        },
{
    let payload = match call_script(outcome) {
        Ok(payload) => payload,
        Err(e) => {
            return Err(e);
        },
    };
    match payload {
        Payload::Empty => Ok(init_entity()),
        Payload::Malformed => Err(XWinError::new(ErrorKind::MalformedPayload)),
        Payload::Parsed(j) => match j {
            Json::Obj(_) => value_to_window_info(j),
            _ => Err(XWinError::new(ErrorKind::NoData)),
        },
    }
}

/// The window list an open-windows call yields for one outcome: an empty
/// reply string and a reply that is valid JSON but no array both hold no
/// windows.
pub open spec fn open_windows_result(o: CallOutcome) -> Result<Seq<WindowInfoView>, ErrorKind> {
    match ext_call_result(o) {
        Err(k) => Err(k),
        Ok(payload) => match payload {
            Payload::Malformed => Err(ErrorKind::MalformedPayload),
            Payload::Parsed(j) => match j {
                Json::Arr(items) => match windows_of_list(items@) {
                    Some(ws) => Ok(ws),
                    None => Err(ErrorKind::MalformedPayload),
                },
                _ => Ok(Seq::<WindowInfoView>::empty()),
            },
            Payload::Empty => Ok(Seq::<WindowInfoView>::empty()),
        },
    }
}

/// Decodes an open-windows reply, exactly as [`open_windows_result`]
/// describes.
pub fn get_open_windows(outcome: &CallOutcome) -> (r: Result<Vec<WindowInfo>, XWinError>)
    ensures
        match open_windows_result(*outcome) {
            Ok(ws) => r matches Ok(v) && window_views(v@) == ws,
            Err(k) => r matches Err(e) && e.kind == k,
        },
{
    let payload = match call_script(outcome) {
        Ok(payload) => payload,
        Err(e) => {
            return Err(e);
        },
    };
    match payload {
        Payload::Empty => {
            proof {
                assert(window_views(Seq::<WindowInfo>::empty()) =~= Seq::<
                    WindowInfoView,
                >::empty());
            }
            Ok(Vec::new())
        },
        Payload::Malformed => Err(XWinError::new(ErrorKind::MalformedPayload)),
        Payload::Parsed(j) => match j {
            Json::Arr(items) => value_to_window_list(items),
            _ => {
                proof {
                    assert(window_views(Seq::<WindowInfo>::empty()) =~= Seq::<
                        WindowInfoView,
                    >::empty());
                }
                Ok(Vec::new())
            },
        },
    }
}

/// One step of an icon query on this backend: either the answer itself, or
/// the method call the process boundary must perform.
pub enum IconQuery {
    /// No call is needed; this is the answer.
    Done(IconInfo),
    /// Call this method with the id as its argument, sent as a
    /// floating-point number, and hand the outcome to [`get_icon`].
    Call { method: String, id: u32 },
}

/// Starts an icon query. A window id of zero names no window, so no RPC
/// call is ever issued for it: the empty icon is returned synchronously.
pub fn get_icon_query(window_info: &WindowInfo) -> (r: IconQuery)
    ensures
        window_info.id == 0 ==> (r matches IconQuery::Done(i) && i@ == empty_icon_view()),
        window_info.id != 0 ==> (r matches IconQuery::Call { method, id } && method@
            == "get_icon"@ && id == window_info.id),
{
    if window_info.id == 0 {
        IconQuery::Done(empty_icon())
    } else {
        IconQuery::Call { method: String::from_str("get_icon"), id: window_info.id }
    }
}

/// The icon record an icon call yields for one outcome: an empty reply
/// string and a non-object reply both degrade to the empty icon. A window
/// id of zero never looks at the outcome at all.
pub open spec fn icon_result(id: u32, o: CallOutcome) -> Result<IconInfoView, ErrorKind> {
    if id == 0 {
        Ok(empty_icon_view())
    } else {
        match ext_call_result(o) {
            Err(k) => Err(k),
            Ok(payload) => match payload {
                Payload::Malformed => Err(ErrorKind::MalformedPayload),
                Payload::Parsed(j) => match j {
                    Json::Obj(fields) => match icon_of_json(Json::Obj(fields)) {
                        Some(iv) => Ok(iv),
                        None => Err(ErrorKind::MalformedPayload),
                    },
                    _ => Ok(empty_icon_view()),
                },
                Payload::Empty => Ok(empty_icon_view()),
            },
        }
    }
}

/// Completes an icon query, exactly as [`icon_result`] describes.
pub fn get_icon(window_info: &WindowInfo, outcome: &CallOutcome) -> (r: Result<
    IconInfo,
    XWinError,
>)
    ensures
        match icon_result(window_info.id, *outcome) {
            Ok(iv) => r matches Ok(i) && i@ == iv,
            Err(k) => r matches Err(e) && e.kind == k,
        },
{
    if window_info.id == 0 {
        return Ok(empty_icon());
    }
    let payload = match call_script_arg(outcome) {
        Ok(payload) => payload,
        Err(e) => {
            return Err(e);
        },
    };
    match payload {
        Payload::Empty => Ok(empty_icon()),
        Payload::Malformed => Err(XWinError::new(ErrorKind::MalformedPayload)),
        Payload::Parsed(j) => match j {
            Json::Obj(_) => value_to_icon_info(j),
            _ => Ok(empty_icon()),
        },
    }
}

/// The pair of files that make the extension on disk: the script written as
/// `extension.js` and the metadata written as `metadata.json`.
pub struct ExtensionArtifact {
    pub extension_js: String,
    pub metadata_json: String,
}

/// Text of the extension script for a shell version: the entry points in
/// the style that generation loads, then the shared query routines, then
/// the icon routine.
pub open spec fn extension_script_text(version: u32) -> Seq<char> {
    (if version < 45 {
        GNOME_XWIN_EXTENSION_SCRIPT@
    } else {
        GNOME45_XWIN_EXTENSION_SCRIPT@
    }) + "\n\n"@ + GNOME_XWIN_EXTENSION_COMMON_SCRIPT@ + "\n\n"@ + GNOME_XWIN_GET_ICON_SCRIPT@
        + "\n"@
}

/// Materializes the extension artifact for the installed shell version.
/// The process boundary writes the two files where
/// [`get_extension_file_path`] and [`get_medata_file_path`] say, after
/// removing any previous pair: installing is an idempotent overwrite.
pub fn install_extension(version: &GnomeVersion) -> (r: ExtensionArtifact)
    ensures
        r.extension_js@ == extension_script_text(version.version),
        r.metadata_json@ == GNOME_XWIN_EXTENSION_META@,
{
    let script: &'static str = if version.version < 45 {
        GNOME_XWIN_EXTENSION_SCRIPT
    } else {
        GNOME45_XWIN_EXTENSION_SCRIPT
    };
    let extension_js = String::from_str(script).concat("\n\n").concat(
        GNOME_XWIN_EXTENSION_COMMON_SCRIPT,
    ).concat("\n\n").concat(GNOME_XWIN_GET_ICON_SCRIPT).concat("\n");
    ExtensionArtifact { extension_js, metadata_json: String::from_str(GNOME_XWIN_EXTENSION_META) }
}

/// Settles an installation from the two write outcomes: a failure to write
/// either file is reported as a structured error naming the file, so the
/// caller decides what to do — nothing here aborts the process.
pub fn install_extension_result(home: &str, ext_ok: bool, meta_ok: bool) -> (r: Result<
    bool,
    XWinError,
>)
    ensures
        ext_ok && meta_ok ==> r == Ok::<bool, XWinError>(true),
        !ext_ok ==> (r matches Err(e) && e.kind matches ErrorKind::WriteFailed { path } && path@
            == get_extension_file_path_spec(home@)),
        ext_ok && !meta_ok ==> (r matches Err(e) && e.kind matches ErrorKind::WriteFailed { path }
            && path@ == get_medata_file_path_spec(home@)),
{
    if !ext_ok {
        Err(XWinError { kind: ErrorKind::WriteFailed { path: get_extension_file_path(home) } })
    } else if !meta_ok {
        Err(XWinError { kind: ErrorKind::WriteFailed { path: get_medata_file_path(home) } })
    } else {
        Ok(true)
    }
}

/// Settles an uninstallation from the removal outcome: `true` when the
/// extension directory could be removed, `false` otherwise, never an error.
pub fn uninstall_extension(removed: bool) -> (r: Result<bool, XWinError>)
    ensures
        r == Ok::<bool, XWinError>(removed),
{
    Ok(removed)
}

/// Directory holding the extension, under the given home directory.
pub open spec fn get_extension_path_spec(home: Seq<char>) -> Seq<char> {
    home + "/"@ + GNOME_XWIN_EXTENSION_FOLDER_PATH@
}

/// Path of the extension script file.
pub open spec fn get_extension_file_path_spec(home: Seq<char>) -> Seq<char> {
    get_extension_path_spec(home) + "/extension.js"@
}

/// Path of the extension metadata file.
pub open spec fn get_medata_file_path_spec(home: Seq<char>) -> Seq<char> {
    get_extension_path_spec(home) + "/metadata.json"@
}

/// Builds the extension directory path under the given home directory.
pub fn get_extension_path(home: &str) -> (r: String)
    ensures
        r@ == get_extension_path_spec(home@),
{
    String::from_str(home).concat("/").concat(GNOME_XWIN_EXTENSION_FOLDER_PATH)
}

/// Builds the path of the extension script file.
pub fn get_extension_file_path(home: &str) -> (r: String)
    ensures
        r@ == get_extension_file_path_spec(home@),
{
    get_extension_path(home).concat("/extension.js")
}

/// Builds the path of the extension metadata file.
pub fn get_medata_file_path(home: &str) -> (r: String)
    ensures
        r@ == get_medata_file_path_spec(home@),
{
    get_extension_path(home).concat("/metadata.json")
}

/// Method the shell's extension interface expects for the wanted state.
pub fn toggle_extension_method(enable: bool) -> (r: &'static str)
    ensures
        enable ==> r@ == "EnableExtension"@,
        !enable ==> r@ == "DisableExtension"@,
{
    if enable {
        "EnableExtension"
    } else {
        "DisableExtension"
    }
}

/// What a toggle call yields: the boolean the shell reported, or an error.
/// An unreachable bus is a connection error — never a quiet `false`.
pub open spec fn toggle_result(o: ToggleOutcome) -> Result<bool, ErrorKind> {
    match o {
        ToggleOutcome::NoConnection => Err(ErrorKind::Connection),
        ToggleOutcome::CallFailed => Err(ErrorKind::ToggleFailed),
        ToggleOutcome::Reply { value } => Ok(value),
        ToggleOutcome::EmptyReply => Err(ErrorKind::ToggleFailed),
        ToggleOutcome::BadReply => Err(ErrorKind::MalformedPayload),
    }
}

/// Settles an enable/disable call, exactly as [`toggle_result`] describes.
pub fn toggle_extension(outcome: &ToggleOutcome) -> (r: Result<bool, XWinError>)
    ensures
        match toggle_result(*outcome) {
            Ok(b) => r == Ok::<bool, XWinError>(b),
            Err(k) => r matches Err(e) && e.kind == k,
        },
{
    match outcome {
        ToggleOutcome::NoConnection => Err(XWinError::new(ErrorKind::Connection)),
        ToggleOutcome::CallFailed => Err(XWinError::new(ErrorKind::ToggleFailed)),
        ToggleOutcome::Reply { value } => Ok(*value),
        ToggleOutcome::EmptyReply => Err(XWinError::new(ErrorKind::ToggleFailed)),
        ToggleOutcome::BadReply => Err(XWinError::new(ErrorKind::MalformedPayload)),
    }
}

/// Settles an enable call.
pub fn enable_extension(outcome: &ToggleOutcome) -> (r: Result<bool, XWinError>)
    ensures
        match toggle_result(*outcome) {
            Ok(b) => r == Ok::<bool, XWinError>(b),
            Err(k) => r matches Err(e) && e.kind == k,
        },
{
    toggle_extension(outcome)
}

/// Settles a disable call.
pub fn disable_extension(outcome: &ToggleOutcome) -> (r: Result<bool, XWinError>)
    ensures
        match toggle_result(*outcome) {
            Ok(b) => r == Ok::<bool, XWinError>(b),
            Err(k) => r matches Err(e) && e.kind == k,
        },
{
    toggle_extension(outcome)
}

/// Whether the extension is installed: true exactly when the shell's
/// extension-information call brought a non-empty payload. An unreachable
/// bus is surfaced; a failed call means no information, hence not
/// installed.
pub open spec fn is_installed_result(o: CallOutcome) -> Result<bool, ErrorKind> {
    match o {
        CallOutcome::NoConnection => Err(ErrorKind::Connection),
        CallOutcome::CallFailed => Ok(false),
        CallOutcome::EmptyReply => Ok(false),
        CallOutcome::Reply { payload } => match payload {
            Payload::Empty => Ok(false),
            _ => Ok(true),
        },
    }
}

/// Settles an installed-state query, exactly as [`is_installed_result`]
/// describes.
pub fn is_installed_extension(outcome: &CallOutcome) -> (r: Result<bool, XWinError>)
    ensures
        match is_installed_result(*outcome) {
            Ok(b) => r == Ok::<bool, XWinError>(b),
            Err(k) => r matches Err(e) && e.kind == k,
        },
{
    match outcome {
        CallOutcome::NoConnection => Err(XWinError::new(ErrorKind::Connection)),
        CallOutcome::CallFailed => Ok(false),
        CallOutcome::EmptyReply => Ok(false),
        CallOutcome::Reply { payload } => match payload {
            Payload::Empty => Ok(false),
            _ => Ok(true),
        },
    }
}

/// Whether the extension is enabled: the `enabled` field of the extension
/// information. A missing payload or a missing field is an error — distinct
/// from "not installed" — and a field of the wrong type reads as `false`.
pub open spec fn is_enabled_result(o: CallOutcome) -> Result<bool, ErrorKind> {
    match o {
        CallOutcome::NoConnection => Err(ErrorKind::Connection),
        CallOutcome::CallFailed => Err(ErrorKind::InfoUnavailable),
        CallOutcome::EmptyReply => Err(ErrorKind::InfoUnavailable),
        CallOutcome::Reply { payload } => match payload {
            Payload::Empty => Err(ErrorKind::InfoUnavailable),
            Payload::Malformed => Err(ErrorKind::MalformedPayload),
            Payload::Parsed(j) => match j {
                Json::Obj(fields) => match obj_get(fields@, "enabled"@) {
                    Some(Json::Bool(b)) => Ok(b),
                    Some(_) => Ok(false),
                    None => Err(ErrorKind::InfoUnavailable),
                },
                _ => Err(ErrorKind::InfoUnavailable),
            },
        },
    }
}

/// Settles an enabled-state query, exactly as [`is_enabled_result`]
/// describes.
pub fn is_enabled_extension(outcome: &CallOutcome) -> (r: Result<bool, XWinError>)
    ensures
        match is_enabled_result(*outcome) {
            Ok(b) => r == Ok::<bool, XWinError>(b),
            Err(k) => r matches Err(e) && e.kind == k,
        },
{
    match outcome {
        CallOutcome::NoConnection => Err(XWinError::new(ErrorKind::Connection)),
        CallOutcome::CallFailed => Err(XWinError::new(ErrorKind::InfoUnavailable)),
        CallOutcome::EmptyReply => Err(XWinError::new(ErrorKind::InfoUnavailable)),
        CallOutcome::Reply { payload } => match payload {
            Payload::Empty => Err(XWinError::new(ErrorKind::InfoUnavailable)),
            Payload::Malformed => Err(XWinError::new(ErrorKind::MalformedPayload)),
            Payload::Parsed(j) => match j {
                Json::Obj(fields) => match obj_lookup(fields, &String::from_str("enabled")) {
                    Some(v) => match v {
                        Json::Bool(b) => Ok(*b),
                        _ => Ok(false),
                    },
                    None => Err(XWinError::new(ErrorKind::InfoUnavailable)),
                },
                _ => Err(XWinError::new(ErrorKind::InfoUnavailable)),
            },
        },
    }
}

} // verus!
