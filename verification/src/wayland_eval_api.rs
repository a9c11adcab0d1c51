//! Eval backend: queries for shells older than 41.
//!
//! No extension can be installed on these shells; instead every query sends
//! a self-contained script bundle through the shell's generic evaluation
//! method and decodes the JSON string that comes back. This module builds
//! those scripts and decides what every possible call outcome means.

use vstd::prelude::*;

use crate::api::{empty_entity_view, empty_icon_view, init_entity, empty_icon};
use crate::decoder::{
    icon_of_json, value_to_icon_info, value_to_window_info, value_to_window_list, window_of_json,
    window_views, windows_of_list,
};
use crate::error::{ErrorKind, XWinError};
use crate::gnome_shell::{GNOME_XWIN_EVAL_SCRIPT, GNOME_XWIN_GET_ICON_SCRIPT};
use crate::json::Json;
use crate::rpc::{EvalOutcome, Payload};
use crate::text::{dec_str, u32_to_string};
use crate::x_win_struct::icon_info::{IconInfo, IconInfoView};
use crate::x_win_struct::window_info::{WindowInfo, WindowInfoView};

verus! {

/// Script sent for an active-window query.
pub open spec fn active_window_script() -> Seq<char> {
    "\n"@ + GNOME_XWIN_EVAL_SCRIPT@ + "\nget_active_window();\n"@
}

/// Script sent for an open-windows query.
pub open spec fn open_windows_script() -> Seq<char> {
    "\n"@ + GNOME_XWIN_EVAL_SCRIPT@ + "\n\nget_open_windows();\n"@
}

/// Script sent for an icon query on the window with this id.
pub open spec fn icon_script(id: nat) -> Seq<char> {
    "\n"@ + GNOME_XWIN_EVAL_SCRIPT@ + "\n"@ + GNOME_XWIN_GET_ICON_SCRIPT@ + "\nget_icon("@
        + dec_str(id) + ");\n"@
}

/// Builds the active-window query script.
pub fn get_active_window_script() -> (r: String)
    ensures
        r@ == active_window_script(),
{
    String::from_str("\n").concat(GNOME_XWIN_EVAL_SCRIPT).concat("\nget_active_window();\n")
}

/// Builds the open-windows query script.
pub fn get_open_windows_script() -> (r: String)
    ensures
        r@ == open_windows_script(),
{
    String::from_str("\n").concat(GNOME_XWIN_EVAL_SCRIPT).concat("\n\nget_open_windows();\n")
}

/// Builds the icon query script for the window with this id.
pub fn get_icon_script(id: u32) -> (r: String)
    ensures
        r@ == icon_script(id as nat),
{
    String::from_str("\n").concat(GNOME_XWIN_EVAL_SCRIPT).concat("\n").concat(
        GNOME_XWIN_GET_ICON_SCRIPT,
    ).concat("\nget_icon(").concat(u32_to_string(id).as_str()).concat(");\n")
}

/// What the evaluation call yields before any decoding: the reply string
/// when the shell reports success, an error otherwise. A missing bus
/// connection is surfaced as such; a failed call or an unsuccessful
/// evaluation is an evaluation failure.
pub open spec fn eval_call_result(o: EvalOutcome) -> Result<Payload, ErrorKind> {
    match o {
        EvalOutcome::NoConnection => Err(ErrorKind::Connection),
        EvalOutcome::CallFailed => Err(ErrorKind::EvalFailed),
        EvalOutcome::Reply { success, payload } => if success {
            Ok(payload)
        } else {
            Err(ErrorKind::EvalFailed)
        },
    }
}

/// Decides what one evaluation outcome means, as [`eval_call_result`]
/// describes.
pub fn call_script<'a>(outcome: &'a EvalOutcome) -> (r: Result<&'a Payload, XWinError>)
    ensures
        match eval_call_result(*outcome) {
            Ok(p) => r matches Ok(q) && *q == p,
            Err(k) => r matches Err(e) && e.kind == k,
        },
{
    match outcome {
        EvalOutcome::NoConnection => Err(XWinError::new(ErrorKind::Connection)),
        EvalOutcome::CallFailed => Err(XWinError::new(ErrorKind::EvalFailed)),
        EvalOutcome::Reply { success, payload } => {
            if *success {
                Ok(payload)
            } else {
                Err(XWinError::new(ErrorKind::EvalFailed))
            }
        },
    }
}

/// The window record an active-window query yields for one call outcome: an
/// empty or non-object reply degrades to the empty record, a malformed or
/// structurally broken reply is an error.
pub open spec fn active_window_result(o: EvalOutcome) -> Result<WindowInfoView, ErrorKind> {
    match eval_call_result(o) {
        Err(k) => Err(k),
        Ok(payload) => match payload {
            Payload::Empty => Ok(empty_entity_view()),
            Payload::Malformed => Err(ErrorKind::MalformedPayload),
            Payload::Parsed(j) => match j {
                Json::Obj(fields) => match window_of_json(Json::Obj(fields)) {
                    Some(w) => Ok(w),
                    None => Err(ErrorKind::MalformedPayload),
                },
                _ => Ok(empty_entity_view()),
            },
        },
    }
}

/// Decodes an active-window reply, exactly as [`active_window_result`]
/// describes.
pub fn get_active_window(outcome: &EvalOutcome) -> (r: Result<WindowInfo, XWinError>)
    ensures
        match active_window_result(*outcome) {
            Ok(wv) => r matches Ok(w) && w@ == wv,
            Err(k) => r matches Err(e) && e.kind == k,
        },
{
    let payload = match call_script(outcome) {
        Ok(payload) => payload,
        Err(e) => {
            return Err(e);
        },
    };
    match payload {
        Payload::Empty => Ok(init_entity()),
        Payload::Malformed => Err(XWinError::new(ErrorKind::MalformedPayload)),
        Payload::Parsed(j) => match j {
            Json::Obj(_) => value_to_window_info(j),
            _ => Ok(init_entity()),
        },
    }
}

/// The window list an open-windows query yields for one call outcome: an
/// empty or non-array reply degrades to no windows, a malformed or
/// structurally broken reply is an error.
pub open spec fn open_windows_result(o: EvalOutcome) -> Result<Seq<WindowInfoView>, ErrorKind> {
    match eval_call_result(o) {
        Err(k) => Err(k),
        Ok(payload) => match payload {
            Payload::Empty => Ok(Seq::<WindowInfoView>::empty()),
            Payload::Malformed => Err(ErrorKind::MalformedPayload),
            Payload::Parsed(j) => match j {
                Json::Arr(items) => match windows_of_list(items@) {
                    Some(ws) => Ok(ws),
                    None => Err(ErrorKind::MalformedPayload),
                },
                _ => Ok(Seq::<WindowInfoView>::empty()),
            },
        },
    }
}

/// Decodes an open-windows reply, exactly as [`open_windows_result`]
/// describes.
pub fn get_open_windows(outcome: &EvalOutcome) -> (r: Result<Vec<WindowInfo>, XWinError>)
    ensures
        match open_windows_result(*outcome) {
            Ok(ws) => r matches Ok(v) && window_views(v@) == ws,
            Err(k) => r matches Err(e) && e.kind == k,
        },
{
    let payload = match call_script(outcome) {
        Ok(payload) => payload,
        Err(e) => {
            return Err(e);
        },
    };
    match payload {
        Payload::Empty => {
            proof {
                assert(window_views(Seq::<WindowInfo>::empty()) =~= Seq::<
                    WindowInfoView,
                >::empty());
            }
            Ok(Vec::new())
        },
        Payload::Malformed => Err(XWinError::new(ErrorKind::MalformedPayload)),
        Payload::Parsed(j) => match j {
            Json::Arr(items) => value_to_window_list(items),
            _ => {
                proof {
                    assert(window_views(Seq::<WindowInfo>::empty()) =~= Seq::<
                        WindowInfoView,
                    >::empty());
                }
                Ok(Vec::new())
            },
        },
    }
}

/// One step of an icon query: either the answer itself, or the script the
/// process boundary must evaluate.
pub enum IconQuery {
    /// No call is needed; this is the answer.
    Done(IconInfo),
    /// Evaluate this script and hand the outcome to [`get_icon`].
    Script(String),
}

/// Starts an icon query. A window id of zero names no window, so no RPC
/// call is ever issued for it: the empty icon is returned synchronously.
pub fn get_icon_query(window_info: &WindowInfo) -> (r: IconQuery)
    ensures
        window_info.id == 0 ==> (r matches IconQuery::Done(i) && i@ == empty_icon_view()),
        window_info.id != 0 ==> (r matches IconQuery::Script(s) && s@ == icon_script(
            window_info.id as nat,
        )),
{
    if window_info.id == 0 {
        IconQuery::Done(empty_icon())
    } else {
        IconQuery::Script(get_icon_script(window_info.id))
    }
}

/// The icon record an icon query yields for one call outcome: an empty or
/// non-object reply degrades to the empty icon, a malformed reply is an
/// error, and a window id of zero never looks at the outcome at all.
pub open spec fn icon_result(id: u32, o: EvalOutcome) -> Result<IconInfoView, ErrorKind> {
    if id == 0 {
        Ok(empty_icon_view())
    } else {
        match eval_call_result(o) {
            Err(k) => Err(k),
            Ok(payload) => match payload {
                Payload::Empty => Ok(empty_icon_view()),
                Payload::Malformed => Err(ErrorKind::MalformedPayload),
                Payload::Parsed(j) => match j {
                    Json::Obj(fields) => match icon_of_json(Json::Obj(fields)) {
                        Some(iv) => Ok(iv),
                        None => Err(ErrorKind::MalformedPayload),
                    },
                    _ => Ok(empty_icon_view()),
                },
            },
        }
    }
}

/// Completes an icon query, exactly as [`icon_result`] describes.
pub fn get_icon(window_info: &WindowInfo, outcome: &EvalOutcome) -> (r: Result<
    IconInfo,
    XWinError,
>)
    ensures
        match icon_result(window_info.id, *outcome) {
            Ok(iv) => r matches Ok(i) && i@ == iv,
            Err(k) => r matches Err(e) && e.kind == k,
        },
{
    if window_info.id == 0 {
        return Ok(empty_icon());
    }
    let payload = match call_script(outcome) {
        Ok(payload) => payload,
        Err(e) => {
            return Err(e);
        },
    };
    match payload {
        Payload::Empty => Ok(empty_icon()),
        Payload::Malformed => Err(XWinError::new(ErrorKind::MalformedPayload)),
        Payload::Parsed(j) => match j {
            Json::Obj(_) => value_to_icon_info(j),
            _ => Ok(empty_icon()),
        },
    }
}

} // verus!
