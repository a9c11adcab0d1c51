//! Response decoder: JSON payloads to the shared window and icon records.
//!
//! The shell serializes a window as
//! `{id, os, title, info:{process_id,name,path,exec_name},
//!   position:{x,y,width,height,isFullScreen}, usage:{memory}}`
//! and an icon as `{data, width, height}`. Decoding is deliberately
//! permissive about leaves — a missing or wrongly-typed scalar member becomes
//! zero, an empty string or `false` — but strict about structure: a payload
//! that is not an object, or whose `position`, `info` or `usage` member is
//! missing or not an object, is rejected as malformed rather than silently
//! defaulted.

use vstd::prelude::*;

use crate::error::{ErrorKind, XWinError};
use crate::json::{lemma_obj_get_at, obj_get, obj_lookup, Json};
use crate::x_win_struct::icon_info::{IconInfo, IconInfoView};
use crate::x_win_struct::process_info::{ProcessInfo, ProcessInfoView};
use crate::x_win_struct::usage_info::UsageInfo;
use crate::x_win_struct::window_info::{WindowInfo, WindowInfoView};
use crate::x_win_struct::window_position::WindowPosition;

verus! {

/// Numeric value of a JSON node as a `u32`: numbers out of range and
/// non-numbers read as zero.
pub open spec fn num_u32_of(j: Json) -> u32 {
    match j {
        Json::Num(n) => if 0 <= n && n <= u32::MAX {
            n as u32
        } else {
            0
        },
        _ => 0,
    }
}

/// Numeric value of a JSON node as an `i32`: numbers out of range and
/// non-numbers read as zero.
pub open spec fn num_i32_of(j: Json) -> i32 {
    match j {
        Json::Num(n) => if i32::MIN <= n && n <= i32::MAX {
            n as i32
        } else {
            0
        },
        _ => 0,
    }
}

/// `u32` member of an object, defaulting to zero.
pub open spec fn u32_field(f: Seq<(String, Json)>, key: Seq<char>) -> u32 {
    match obj_get(f, key) {
        Some(j) => num_u32_of(j),
        None => 0,
    }
}

/// `i32` member of an object, defaulting to zero.
pub open spec fn i32_field(f: Seq<(String, Json)>, key: Seq<char>) -> i32 {
    match obj_get(f, key) {
        Some(j) => num_i32_of(j),
        None => 0,
    }
}

/// String member of an object, defaulting to the empty string.
pub open spec fn str_field(f: Seq<(String, Json)>, key: Seq<char>) -> Seq<char> {
    match obj_get(f, key) {
        Some(Json::Str(s)) => s@,
        _ => Seq::<char>::empty(),
    }
}

/// Boolean member of an object, defaulting to `false`.
pub open spec fn bool_field(f: Seq<(String, Json)>, key: Seq<char>) -> bool {
    match obj_get(f, key) {
        Some(Json::Bool(b)) => b,
        _ => false,
    }
}

/// The window record a JSON document decodes to, or `None` when the document
/// violates the schema's structure.
pub open spec fn window_of_json(j: Json) -> Option<WindowInfoView> {
    match j {
        Json::Obj(fields) => {
            let f = fields@;
            match (obj_get(f, "position"@), obj_get(f, "info"@), obj_get(f, "usage"@)) {
                (Some(Json::Obj(p)), Some(Json::Obj(inf)), Some(Json::Obj(u))) => Some(
                    WindowInfoView {
                        id: u32_field(f, "id"@),
                        os: str_field(f, "os"@),
                        title: str_field(f, "title"@),
                        position: WindowPosition {
                            x: i32_field(p@, "x"@),
                            y: i32_field(p@, "y"@),
                            width: i32_field(p@, "width"@),
                            height: i32_field(p@, "height"@),
                            is_full_screen: bool_field(p@, "isFullScreen"@),
                        },
                        info: ProcessInfoView {
                            process_id: u32_field(inf@, "process_id"@),
                            path: str_field(inf@, "path"@),
                            name: str_field(inf@, "name"@),
                            exec_name: str_field(inf@, "exec_name"@),
                        },
                        usage: UsageInfo { memory: u32_field(u@, "memory"@) },
                    },
                ),
                _ => None,
            }
        },
        _ => None,
    }
}

/// The icon record a JSON document decodes to, or `None` when the document
/// is not an object.
pub open spec fn icon_of_json(j: Json) -> Option<IconInfoView> {
    match j {
        Json::Obj(fields) => Some(
            IconInfoView {
                data: str_field(fields@, "data"@),
                height: u32_field(fields@, "height"@),
                width: u32_field(fields@, "width"@),
            },
        ),
        _ => None,
    }
}

/// The window list a JSON array decodes to, or `None` when any element
/// violates the schema's structure.
pub open spec fn windows_of_list(items: Seq<Json>) -> Option<Seq<WindowInfoView>>
    decreases items.len(),
{
    if items.len() == 0 {
        Some(Seq::<WindowInfoView>::empty())
    } else {
        match (windows_of_list(items.drop_last()), window_of_json(items.last())) {
            (Some(ws), Some(w)) => Some(ws.push(w)),
            _ => None,
        }
    }
}

/// Ghost image of a decoded window list.
pub open spec fn window_views(v: Seq<WindowInfo>) -> Seq<WindowInfoView> {
    v.map_values(|w: WindowInfo| w@)
}

/// One structurally broken element breaks the whole list.
proof fn lemma_windows_of_list_none(items: Seq<Json>, k: int)
    requires
        0 <= k < items.len(),
        window_of_json(items[k]) is None,
    ensures
        windows_of_list(items) is None,
    decreases items.len(),
{
    if k < items.len() - 1 {
        lemma_windows_of_list_none(items.drop_last(), k);
    }
}

/// Reads a JSON number as a `u32`, as [`num_u32_of`] describes.
pub fn number_to_u32(value: &Json) -> (r: u32)
    ensures
        r == num_u32_of(*value),
{
    match value {
        Json::Num(n) => {
            if 0 <= *n && *n <= u32::MAX as i64 {
                *n as u32
            } else {
                0
            }
        },
        _ => 0,
    }
}

/// Reads a JSON number as an `i32`, as [`num_i32_of`] describes.
pub fn number_to_i32(value: &Json) -> (r: i32)
    ensures
        r == num_i32_of(*value),
{
    match value {
        Json::Num(n) => {
            if i32::MIN as i64 <= *n && *n <= i32::MAX as i64 {
                *n as i32
            } else {
                0
            }
        },
        _ => 0,
    }
}

/// Looks a member up and reads it as a `u32`.
fn lookup_u32(fields: &Vec<(String, Json)>, key: &String) -> (r: u32)
    ensures
        r == u32_field(fields@, key@),
{
    match obj_lookup(fields, key) {
        Some(v) => number_to_u32(v),
        None => 0,
    }
}

/// Looks a member up and reads it as an `i32`.
fn lookup_i32(fields: &Vec<(String, Json)>, key: &String) -> (r: i32)
    ensures
        r == i32_field(fields@, key@),
{
    match obj_lookup(fields, key) {
        Some(v) => number_to_i32(v),
        None => 0,
    }
}

/// Looks a member up and reads it as a string.
fn lookup_str(fields: &Vec<(String, Json)>, key: &String) -> (r: String)
    ensures
        r@ == str_field(fields@, key@),
{
    match obj_lookup(fields, key) {
        Some(v) => match v {
            Json::Str(s) => s.clone(),
            _ => String::new(),
        },
        None => String::new(),
    }
}

/// Looks a member up and reads it as a boolean.
fn lookup_bool(fields: &Vec<(String, Json)>, key: &String) -> (r: bool)
    ensures
        r == bool_field(fields@, key@),
{
    match obj_lookup(fields, key) {
        Some(v) => match v {
            Json::Bool(b) => *b,
            _ => false,
        },
        None => false,
    }
}

/// Decodes one window payload, exactly as [`window_of_json`] describes;
/// structural violations are reported as malformed, never as defaults.
pub fn value_to_window_info(response: &Json) -> (r: Result<WindowInfo, XWinError>)
    ensures
        match window_of_json(*response) {
            Some(wv) => r matches Ok(w) && w@ == wv,
            None => r matches Err(e) && e.kind == ErrorKind::MalformedPayload,
        },
{
    let fields = match response {
        Json::Obj(fields) => fields,
        _ => {
            return Err(XWinError::new(ErrorKind::MalformedPayload));
        },
    };
    let position = match obj_lookup(fields, &String::from_str("position")) {
        Some(Json::Obj(p)) => p,
        _ => {
            return Err(XWinError::new(ErrorKind::MalformedPayload));
        },
    };
    let info = match obj_lookup(fields, &String::from_str("info")) {
        Some(Json::Obj(inf)) => inf,
        _ => {
            return Err(XWinError::new(ErrorKind::MalformedPayload));
        },
    };
    let usage = match obj_lookup(fields, &String::from_str("usage")) {
        Some(Json::Obj(u)) => u,
        _ => {
            return Err(XWinError::new(ErrorKind::MalformedPayload));
        },
    };
    Ok(
        WindowInfo {
            id: lookup_u32(fields, &String::from_str("id")),
            os: lookup_str(fields, &String::from_str("os")),
            title: lookup_str(fields, &String::from_str("title")),
            position: WindowPosition {
                x: lookup_i32(position, &String::from_str("x")),
                y: lookup_i32(position, &String::from_str("y")),
                width: lookup_i32(position, &String::from_str("width")),
                height: lookup_i32(position, &String::from_str("height")),
                is_full_screen: lookup_bool(position, &String::from_str("isFullScreen")),
            },
            info: ProcessInfo {
                process_id: lookup_u32(info, &String::from_str("process_id")),
                path: lookup_str(info, &String::from_str("path")),
                name: lookup_str(info, &String::from_str("name")),
                exec_name: lookup_str(info, &String::from_str("exec_name")),
            },
            usage: UsageInfo { memory: lookup_u32(usage, &String::from_str("memory")) },
        },
    )
}

/// Decodes one icon payload, exactly as [`icon_of_json`] describes.
pub fn value_to_icon_info(response: &Json) -> (r: Result<IconInfo, XWinError>)
    ensures
        match icon_of_json(*response) {
            Some(iv) => r matches Ok(icon) && icon@ == iv,
            None => r matches Err(e) && e.kind == ErrorKind::MalformedPayload,
        },
{
    let fields = match response {
        Json::Obj(fields) => fields,
        _ => {
            return Err(XWinError::new(ErrorKind::MalformedPayload));
        },
    };
    Ok(
        IconInfo {
            data: lookup_str(fields, &String::from_str("data")),
            height: lookup_u32(fields, &String::from_str("height")),
            width: lookup_u32(fields, &String::from_str("width")),
        },
    )
}

/// Decodes an array of window payloads, exactly as [`windows_of_list`]
/// describes: one structurally broken element rejects the whole reply.
pub fn value_to_window_list(items: &Vec<Json>) -> (r: Result<Vec<WindowInfo>, XWinError>)
    ensures
        match windows_of_list(items@) {
            Some(ws) => r matches Ok(v) && window_views(v@) == ws,
            None => r matches Err(e) && e.kind == ErrorKind::MalformedPayload,
        },
{
    let mut out: Vec<WindowInfo> = Vec::new();
    proof {
        assert(items@.take(0) =~= Seq::<Json>::empty());
        assert(window_views(out@) =~= Seq::<WindowInfoView>::empty());
    }
    let mut i: usize = 0;
    while i < items.len()
        invariant
            i <= items@.len(),
            windows_of_list(items@.take(i as int)) == Some(window_views(out@)),
        decreases items@.len() - i,
    {
        match value_to_window_info(&items[i]) {
            Ok(w) => {
                proof {
                    assert(items@.take(i + 1).drop_last() =~= items@.take(i as int));
                    assert(items@.take(i + 1).last() == items@[i as int]);
                    assert(window_views(out@.push(w)) =~= window_views(out@).push(w@));
                }
                out.push(w);
            },
            Err(e) => {
                proof {
                    lemma_windows_of_list_none(items@, i as int);
                }
                return Err(e);
            },
        }
        i += 1;
    }
    proof {
        assert(items@.take(items@.len() as int) =~= items@);
    }
    Ok(out)
}

/// Encodes a window record into the JSON schema the shell uses.
///
/// The contract is the round-trip law: decoding the encoded document yields
/// the record back, field for field, for every record. Whether a numeric
/// member arrived as an integer or a floating-point JSON number is settled
/// before the document reaches this model, so the law covers both forms.
pub fn window_info_to_value(w: &WindowInfo) -> (r: Json)
    ensures
        window_of_json(r) == Some(w@),
{
    let mut position_fields: Vec<(String, Json)> = Vec::new();
    position_fields.push((String::from_str("x"), Json::Num(w.position.x as i64)));
    position_fields.push((String::from_str("y"), Json::Num(w.position.y as i64)));
    position_fields.push((String::from_str("width"), Json::Num(w.position.width as i64)));
    position_fields.push((String::from_str("height"), Json::Num(w.position.height as i64)));
    position_fields.push((String::from_str("isFullScreen"), Json::Bool(w.position.is_full_screen)));
    let mut info_fields: Vec<(String, Json)> = Vec::new();
    info_fields.push((String::from_str("process_id"), Json::Num(w.info.process_id as i64)));
    info_fields.push((String::from_str("name"), Json::Str(w.info.name.clone())));
    info_fields.push((String::from_str("path"), Json::Str(w.info.path.clone())));
    info_fields.push((String::from_str("exec_name"), Json::Str(w.info.exec_name.clone())));
    let mut usage_fields: Vec<(String, Json)> = Vec::new();
    usage_fields.push((String::from_str("memory"), Json::Num(w.usage.memory as i64)));
    let ghost pos_seq = position_fields@;
    let ghost info_seq = info_fields@;
    let ghost usage_seq = usage_fields@;
    let mut fields: Vec<(String, Json)> = Vec::new();
    fields.push((String::from_str("id"), Json::Num(w.id as i64)));
    fields.push((String::from_str("os"), Json::Str(w.os.clone())));
    fields.push((String::from_str("info"), Json::Obj(info_fields)));
    fields.push((String::from_str("title"), Json::Str(w.title.clone())));
    fields.push((String::from_str("position"), Json::Obj(position_fields)));
    fields.push((String::from_str("usage"), Json::Obj(usage_fields)));
    let r = Json::Obj(fields);
    proof {
        reveal_strlit("id");
        reveal_strlit("os");
        reveal_strlit("info");
        reveal_strlit("title");
        reveal_strlit("position");
        reveal_strlit("usage");
        reveal_strlit("x");
        reveal_strlit("y");
        reveal_strlit("width");
        reveal_strlit("height");
        reveal_strlit("isFullScreen");
        reveal_strlit("process_id");
        reveal_strlit("name");
        reveal_strlit("path");
        reveal_strlit("exec_name");
        reveal_strlit("memory");
        assert("id"@.len() == 2 && "id"@[0] == 'i');
        assert("os"@.len() == 2 && "os"@[0] == 'o');
        assert("info"@.len() == 4 && "info"@[0] == 'i');
        assert("title"@.len() == 5 && "title"@[0] == 't');
        assert("position"@.len() == 8);
        assert("usage"@.len() == 5 && "usage"@[0] == 'u');
        assert("x"@.len() == 1 && "x"@[0] == 'x');
        assert("y"@.len() == 1 && "y"@[0] == 'y');
        assert("width"@.len() == 5 && "width"@[0] == 'w');
        assert("height"@.len() == 6);
        assert("isFullScreen"@.len() == 12);
        assert("process_id"@.len() == 10);
        assert("name"@.len() == 4 && "name"@[0] == 'n');
        assert("path"@.len() == 4 && "path"@[0] == 'p');
        assert("exec_name"@.len() == 9);
        assert("memory"@.len() == 6);
        assert("id"@ != "os"@);
        assert("id"@ != "info"@ && "os"@ != "info"@);
        assert("id"@ != "title"@ && "os"@ != "title"@ && "info"@ != "title"@);
        assert("id"@ != "position"@ && "os"@ != "position"@ && "info"@ != "position"@
            && "title"@ != "position"@);
        assert("id"@ != "usage"@ && "os"@ != "usage"@ && "info"@ != "usage"@ && "title"@
            != "usage"@ && "position"@ != "usage"@);
        assert("x"@ != "y"@);
        assert("x"@ != "width"@ && "y"@ != "width"@);
        assert("x"@ != "height"@ && "y"@ != "height"@ && "width"@ != "height"@);
        assert("x"@ != "isFullScreen"@ && "y"@ != "isFullScreen"@ && "width"@ != "isFullScreen"@
            && "height"@ != "isFullScreen"@);
        assert("process_id"@ != "name"@);
        assert("process_id"@ != "path"@ && "name"@ != "path"@);
        assert("process_id"@ != "exec_name"@ && "name"@ != "exec_name"@ && "path"@
            != "exec_name"@);
        let f = fields@;
        lemma_obj_get_at(f, "id"@, 0);
        lemma_obj_get_at(f, "os"@, 1);
        lemma_obj_get_at(f, "info"@, 2);
        lemma_obj_get_at(f, "title"@, 3);
        lemma_obj_get_at(f, "position"@, 4);
        lemma_obj_get_at(f, "usage"@, 5);
        lemma_obj_get_at(pos_seq, "x"@, 0);
        lemma_obj_get_at(pos_seq, "y"@, 1);
        lemma_obj_get_at(pos_seq, "width"@, 2);
        lemma_obj_get_at(pos_seq, "height"@, 3);
        lemma_obj_get_at(pos_seq, "isFullScreen"@, 4);
        lemma_obj_get_at(info_seq, "process_id"@, 0);
        lemma_obj_get_at(info_seq, "name"@, 1);
        lemma_obj_get_at(info_seq, "path"@, 2);
        lemma_obj_get_at(info_seq, "exec_name"@, 3);
        lemma_obj_get_at(usage_seq, "memory"@, 0);
    }
    r
}

} // verus!
