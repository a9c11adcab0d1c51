//! Shell version detection and classification.
//!
//! The desktop shell reports its version through an external probe command
//! whose output looks like `GNOME Shell 45.2`. The library parses the third
//! whitespace-delimited token, reads its leading numeral as the major
//! version, and classifies it into one of three protocol generations. Any
//! parse failure yields the sentinel value `999`: the probe is a capability
//! hint, not a hard dependency, so an unreadable version selects the most
//! capable protocol path rather than failing.

use vstd::prelude::*;

verus! {

/// UUID under which the helper shell extension is registered.
pub const GNOME_XWIN_UUID: &'static str = "x-win@miniben90.org";

/// Bus name of the desktop shell.
pub const DESTINATION: &'static str = "org.gnome.Shell";

/// Interface exported by the helper extension.
pub const XWIN_IFACE: &'static str = "org.gnome.Shell.Extensions.XWinWaylandExtension";

/// Object path of the helper extension.
pub const XWIN_PATH: &'static str = "/org/gnome/Shell/Extensions/XWinWaylandExtension";

/// Object path of the shell itself.
pub const SHELL_PATH: &'static str = "/org/gnome/Shell";

/// Interface carrying the shell's extension management methods.
pub const SHELL_IFACE: &'static str = "org.gnome.Shell.Extensions";

/// Directory, relative to the user's home, where the extension lives.
pub const GNOME_XWIN_EXTENSION_FOLDER_PATH: &'static str =
    ".local/share/gnome-shell/extensions/x-win@miniben90.org";

/// Metadata file written beside the extension script; the shell reads it
/// to learn the extension's identity and supported versions.
pub const GNOME_XWIN_EXTENSION_META: &'static str = r#"
{
  "name": "@mininben90/x-win extended",
  "description": "Get active and open window(s) informations for @miniben90/x-win node package.",
  "uuid": "x-win@miniben90.org",
  "shell-version": [ "42", "43", "44", "45", "46" ],
  "url": "https://github.com/miniben-90/x-win.git",
  "version-name": "1.8.0"
}
"#;

/// Shell-side icon retrieval routine, shared by every script variant.
pub const GNOME_XWIN_GET_ICON_SCRIPT: &'static str = r#"function _get_icon(window_id) {
  if (window_id) {
    let meta_window = global.get_window_actors()
      .filter(x => _filterWindow)
      .find(x => x && x.get_meta_window && x.get_meta_window() && x.get_meta_window().get_id() === window_id)
      .get_meta_window();
    if (meta_window) { 
      const tracker = Shell.WindowTracker.get_default();
      const window_app = tracker.get_window_app(meta_window);
      if (window_app) {
        const icon = window_app.get_icon();
        if (icon) {
          const iconTheme = new St.IconTheme();
          const iconInfo = iconTheme.lookup_by_gicon(icon, 128, St.IconLookupFlags.FORCE_SIZE);
          if (iconInfo) {
            const pixBuf = iconInfo.load_icon();
            if (pixBuf) {
              const [ success, unitArray ] = pixBuf.save_to_bufferv('png', [], []);
              if(success && unitArray.length) {
                const data = GLib.base64_encode(unitArray);
                if (data) {
                  return {
                    data: "data:image/png;base64," + data,
                    height: pixBuf.get_height(),
                    width: pixBuf.get_width(),
                  };
                }
              }
            }
          }
        }
      }
    }
  }
  return {
    data: "",
    height: 0,
    width: 0,
  };
}"#;

/// Self-contained query bundle sent with every generic-evaluation call on
/// shells older than 41.
pub const GNOME_XWIN_EVAL_SCRIPT: &'static str = r#"
const { Gio, GLib, Meta, Gtk: St, Shell } = imports.gi;

const AllowedWindow = [
  Meta.WindowType.DESKTOP,
  Meta.WindowType.OVERRIDE_OTHER,
  Meta.WindowType.UTILITY,
  Meta.WindowType.MODAL_DIALOG,
  Meta.WindowType.DIALOG,
  Meta.WindowType.NORMAL
];

function _filterWindow(x, index, array) {
  if (x && x.get_meta_window && x.get_meta_window().get_window_type) {
    return x.get_meta_window().get_window_type() !== -1;
  } else {
    return false;
  }
}

function _get_open_windows() {
  return global.get_window_actors()
    .filter(_filterWindow)
    .map(_strcut_data);
}

function get_open_windows() {
  return Object(_get_open_windows());
}

function get_active_window() {
  const activeWindow = global.get_window_actors().find(x => x.get_meta_window().has_focus() && _filterWindow(x));
  return Object(_strcut_data(activeWindow));
}

function get_icon(window_id) {
  const iconInfo = _get_icon(window_id);
  return Object(iconInfo);
}

function _strcut_data(window_actor) {
  if (window_actor && window_actor.get_meta_window) {
    const _window = window_actor.get_meta_window();

    const process_id = _window.get_pid ? _window.get_pid() : 0;
    const info = _get_process_info(process_id);

    return {
      id: _window.get_id(),
      os: 'linux',
      info: {
        process_id,
        name: _window.get_wm_class ? _window.get_wm_class() : '',
        path: info.path,
        exec_name: info.exec_name,
      },
      title: _window.get_title ? _window.get_title() : '',
      position: {
        width: window_actor.get_width ? window_actor.get_width() : 0,
        height: window_actor.get_height ? window_actor.get_height() : 0,
        x: window_actor.get_x ? window_actor.get_x() : 0,
        y: window_actor.get_y ? window_actor.get_y() : 0,
        isFullScreen: _window.is_fullscreen(),
      },
      usage: { memory: _get_memory_usage(process_id) },
    };
  } else {
    return {
      id: 0,
      os: 'linux',
      title: '',
      info: {
        process_id: 0,
        path: '',
        exec_name: '',
      },
      position: {
        width: 0,
        height: 0,
        x: 0,
        y: 0,
        isFullScreen: false,
      },
      usage: { memory: 0 },
    };
  }
}

function _get_memory_usage(pid) {
  const [isOk, contents] = GLib.file_get_contents(`/proc/${pid}/statm`);
  if (isOk) {
    return parseInt(contents.toString().split(' ')[0], 10);
  }
  return 0;
}

function _get_process_info(pid) {
  try {
    const path = GLib.file_read_link(`/proc/${pid}/exe`, null);
    if (path) {
      return {
        path,
        exec_name: path.split('/').pop(),
      };
    }
  } catch (e) { }
  return {
    path: '',
    exec_name: '',
  };
}"#;

/// Query routines shared by both installed-extension variants, together
/// with the interface description they export.
pub const GNOME_XWIN_EXTENSION_COMMON_SCRIPT: &'static str = r#"
const WaylandInterface = `
<node>
  <interface name="org.gnome.Shell.Extensions.XWinWaylandExtension">
    <method name="get_active_window">
      <arg name="value" type="s" direction="out" />
    </method>
    <method name="get_open_windows">
      <arg name="value" type="s" direction="out" />
    </method>
    <method name="get_icon">
      <arg name="value" type="d" direction="in" />
      <arg name="value" type="s" direction="out" />
    </method>
  </interface>
</node>
`;

const AllowedWindow = [
  Meta.WindowType.DESKTOP,
  Meta.WindowType.OVERRIDE_OTHER,
  Meta.WindowType.UTILITY,
  Meta.WindowType.MODAL_DIALOG,
  Meta.WindowType.DIALOG,
  Meta.WindowType.NORMAL
];

function _filterWindow(x, index, array) {
  if (x && x.get_meta_window && x.get_meta_window().get_window_type) {
    return x.get_meta_window().get_window_type() !== -1;
  } else {
    return false;
  }
}

function _get_open_windows() {
  return global.get_window_actors()
    .filter(_filterWindow)
    .map(_strcut_data);
}

function get_open_windows() {
  return JSON.stringify(_get_open_windows());
}

function get_active_window() {
  const activeWindow = global.get_window_actors().find(x => x.get_meta_window().has_focus() && _filterWindow(x));
  return JSON.stringify(_strcut_data(activeWindow));
}

function get_icon(window_id) {
  const iconInfo = _get_icon(window_id);
  return JSON.stringify(iconInfo);
}

function _strcut_data(window_actor) {
  if (window_actor && window_actor.get_meta_window) {
    const _window = window_actor.get_meta_window();

    const process_id = _window.get_pid ? _window.get_pid() : 0;
    const info = _get_process_info(process_id);

    return {
      id: _window.get_id(),
      os: 'linux',
      info: {
        process_id,
        name: _window.get_wm_class ? _window.get_wm_class() : '',
        path: info.path,
        exec_name: info.exec_name,
      },
      title: _window.get_title ? _window.get_title() : '',
      position: {
        width: window_actor.get_width ? window_actor.get_width() : 0,
        height: window_actor.get_height ? window_actor.get_height() : 0,
        x: window_actor.get_x ? window_actor.get_x() : 0,
        y: window_actor.get_y ? window_actor.get_y() : 0,
        isFullScreen: _window.is_fullscreen(),
      },
      usage: { memory: _get_memory_usage(process_id) },
    };
  } else {
    return {
      id: 0,
      os: 'linux',
      title: '',
      info: {
        process_id: 0,
        path: '',
        exec_name: '',
      },
      position: {
        width: 0,
        height: 0,
        x: 0,
        y: 0,
        isFullScreen: false,
      },
      usage: { memory: 0 },
    };
  }
}

function _get_memory_usage(pid) {
  const [isOk, contents] = GLib.file_get_contents(`/proc/${pid}/statm`);
  if (isOk) {
    const value = String.fromCharCode.apply(null, contents);
    return parseInt(value.toString().split(' ')[0], 10);
  }
  return 0;
}

function _get_process_info(pid) {
  try {
    const path = GLib.file_read_link(`/proc/${pid}/exe`);
    if (path) {
      return {
        path,
        exec_name: path.split('/').pop(),
      };
    }
  } catch (e) { }
  return {
    path: '',
    exec_name: '',
  };
}"#;

/// Extension entry points in the legacy style, for shells 41 through 44.
pub const GNOME_XWIN_EXTENSION_SCRIPT: &'static str = r#"const { Gio, GLib, Meta, Gtk: St, Shell } = imports.gi;

let _dbus = undefined;

function enable() {
  _dbus = Gio.DBusExportedObject.wrapJSObject(
    WaylandInterface,
    this,
  );
  _dbus.export(
    Gio.DBus.session,
    '/org/gnome/Shell/Extensions/XWinWaylandExtension',
  );
}

function disable() {
  _dbus.flush();
  _dbus.unexport();
  _dbus = undefined;
}

function init() {
  /** Do nothing */
}
"#;

/// Extension entry points as an ESM class, for shells 45 and later.
pub const GNOME45_XWIN_EXTENSION_SCRIPT: &'static str = r#"import { Extension } from 'resource:///org/gnome/shell/extensions/extension.js';
import Gio from 'gi://Gio';
import GLib from 'gi://GLib';
import Meta from 'gi://Meta';
import St from "gi://St";
import Shell from "gi://Shell";

export default class XWinWaylandExtension extends Extension {

  _dbus = undefined;

  enable() {
    this._dbus = Gio.DBusExportedObject.wrapJSObject(
      WaylandInterface,
      this,
    );
    this._dbus.export(
      Gio.DBus.session,
      '/org/gnome/Shell/Extensions/XWinWaylandExtension',
    );
  }

  disable() {
    this._dbus.flush();
    this._dbus.unexport();
    this._dbus = undefined;
  }

  get_open_windows() {
    return get_open_windows();
  }

  get_active_window() {
    return get_active_window();
  }

  get_icon(window_id) {
    return get_icon(window_id);
  }
}
"#;

/// Whitespace, as token splitting understands it: the characters with the
/// Unicode `White_Space` property.
pub open spec fn is_ws(c: char) -> bool {
    c == '\t' || c == '\n' || c == '\u{b}' || c == '\u{c}' || c == '\r' || c == ' ' || c
        == '\u{85}' || c == '\u{a0}' || c == '\u{1680}' || c == '\u{2000}' || c == '\u{2001}' || c
        == '\u{2002}' || c == '\u{2003}' || c == '\u{2004}' || c == '\u{2005}' || c == '\u{2006}'
        || c == '\u{2007}' || c == '\u{2008}' || c == '\u{2009}' || c == '\u{200a}' || c
        == '\u{2028}' || c == '\u{2029}' || c == '\u{202f}' || c == '\u{205f}' || c == '\u{3000}'
}

/// Number of leading characters of `s` that belong to a whitespace-free run.
pub open spec fn tok_end(s: Seq<char>) -> nat
    decreases s.len(),
{
    if s.len() > 0 && !is_ws(s[0]) {
        1 + tok_end(s.drop_first())
    } else {
        0
    }
}

proof fn lemma_tok_end_bounds(s: Seq<char>)
    ensures
        tok_end(s) <= s.len(),
    decreases s.len(),
{
    if s.len() > 0 && !is_ws(s[0]) {
        lemma_tok_end_bounds(s.drop_first());
    }
}

/// `tok_end` is exactly the first whitespace position.
proof fn lemma_tok_end_is(s: Seq<char>, j: int)
    requires
        0 <= j <= s.len(),
        forall|k: int| 0 <= k < j ==> !is_ws(s[k]),
        j == s.len() || is_ws(s[j]),
    ensures
        tok_end(s) == j,
    decreases j,
{
    if j == 0 {
    } else {
        assert(!is_ws(s[0]));
        lemma_tok_end_is(s.drop_first(), j - 1);
    }
}

/// The `n`-th whitespace-delimited token of `s`, counted from zero.
pub open spec fn nth_token(s: Seq<char>, n: nat) -> Option<Seq<char>>
    decreases s.len(), n,
{
    if s.len() == 0 {
        None
    } else if is_ws(s[0]) {
        nth_token(s.drop_first(), n)
    } else if n == 0 {
        Some(s.take(tok_end(s) as int))
    } else if tok_end(s) < s.len() {
        nth_token(s.skip(tok_end(s) as int), (n - 1) as nat)
    } else {
        None
    }
}

/// The version token this backend reads from the probe output: the third
/// whitespace-delimited token, or `999` when there is none.
pub open spec fn gnome_version_token(s: Seq<char>) -> Seq<char> {
    match nth_token(s, 2) {
        Some(t) => t,
        None => "999"@,
    }
}

/// Tests one character for whitespace, as [`is_ws`] defines it.
fn is_ws_char(c: char) -> (b: bool)
    ensures
        b == is_ws(c),
{
    c == '\t' || c == '\n' || c == '\u{b}' || c == '\u{c}' || c == '\r' || c == ' ' || c
        == '\u{85}' || c == '\u{a0}' || c == '\u{1680}' || c == '\u{2000}' || c == '\u{2001}' || c
        == '\u{2002}' || c == '\u{2003}' || c == '\u{2004}' || c == '\u{2005}' || c == '\u{2006}'
        || c == '\u{2007}' || c == '\u{2008}' || c == '\u{2009}' || c == '\u{200a}' || c
        == '\u{2028}' || c == '\u{2029}' || c == '\u{202f}' || c == '\u{205f}' || c == '\u{3000}'
}

/// Scans the maximal whitespace-free run of `s` starting at `from`.
fn scan_token_end(s: &str, len: usize, from: usize) -> (j: usize)
    requires
        len == s@.len(),
        from <= len,
    ensures
        from <= j <= len,
        tok_end(s@.skip(from as int)) == j - from,
{
    let mut j: usize = from;
    while j < len
        invariant
            from <= j <= len,
            len == s@.len(),
            forall|k: int| from <= k < j ==> !is_ws(s@[k]),
        decreases len - j,
    {
        if is_ws_char(s.get_char(j)) {
            proof {
                lemma_tok_end_is(s@.skip(from as int), j - from);
            }
            return j;
        }
        j += 1;
    }
    proof {
        lemma_tok_end_is(s@.skip(from as int), j - from);
    }
    j
}

/// Extracts the version token from the probe output: the third
/// whitespace-delimited token, or `"999"` when the output has fewer tokens.
pub fn parse_gnome_version(stdout: &str) -> (r: String)
    ensures
        r@ == gnome_version_token(stdout@),
{
    let len = stdout.unicode_len();
    let mut i: usize = 0;
    let mut remaining: usize = 2;
    proof {
        assert(stdout@.skip(0) =~= stdout@);
    }
    while i < len
        invariant
            i <= len,
            len == stdout@.len(),
            nth_token(stdout@, 2) == nth_token(stdout@.skip(i as int), remaining as nat),
        decreases len - i,
    {
        let ghost rest = stdout@.skip(i as int);
        if is_ws_char(stdout.get_char(i)) {
            proof {
                assert(rest.drop_first() =~= stdout@.skip(i as int + 1));
            }
            i += 1;
        } else {
            let j = scan_token_end(stdout, len, i);
            if remaining == 0 {
                let tok = stdout.substring_char(i, j);
                proof {
                    assert(rest.take(tok_end(rest) as int) =~= stdout@.subrange(i as int, j as int));
                }
                return tok.to_owned();
            }
            proof {
                lemma_tok_end_bounds(rest);
                assert(rest.skip(tok_end(rest) as int) =~= stdout@.skip(j as int));
                if j == len {
                    assert(stdout@.skip(j as int) =~= Seq::<char>::empty());
                }
            }
            remaining -= 1;
            i = j;
        }
    }
    proof {
        assert(stdout@.skip(i as int) =~= Seq::<char>::empty());
    }
    String::from_str("999")
}

/// Value of one decimal digit, or `None` for any other character.
pub open spec fn digit_val(c: char) -> Option<nat> {
    if c == '0' {
        Some(0nat)
    } else if c == '1' {
        Some(1nat)
    } else if c == '2' {
        Some(2nat)
    } else if c == '3' {
        Some(3nat)
    } else if c == '4' {
        Some(4nat)
    } else if c == '5' {
        Some(5nat)
    } else if c == '6' {
        Some(6nat)
    } else if c == '7' {
        Some(7nat)
    } else if c == '8' {
        Some(8nat)
    } else if c == '9' {
        Some(9nat)
    } else {
        None
    }
}

/// Whether every character of `s` is a decimal digit.
pub open spec fn all_digits(s: Seq<char>) -> bool {
    forall|k: int| 0 <= k < s.len() ==> digit_val(s[k]) is Some
}

/// Numeric value of a digit string, reading non-digits as zero.
pub open spec fn digits_value(s: Seq<char>) -> nat
    decreases s.len(),
{
    if s.len() == 0 {
        0
    } else {
        digits_value(s.drop_last()) * 10 + (match digit_val(s.last()) {
            Some(d) => d,
            None => 0,
        })
    }
}

/// How `u32` parsing reads a string: an optional leading `+`, then at least
/// one digit, and a value that fits in 32 bits; anything else is rejected.
pub open spec fn parse_u32(s: Seq<char>) -> Option<u32> {
    let body = if s.len() > 0 && s[0] == '+' {
        s.drop_first()
    } else {
        s
    };
    if body.len() > 0 && all_digits(body) && digits_value(body) <= u32::MAX {
        Some(digits_value(body) as u32)
    } else {
        None
    }
}

/// A digit prefix never exceeds the value of the whole digit string.
proof fn lemma_digits_value_prefix(s: Seq<char>, i: int)
    requires
        0 <= i <= s.len(),
    ensures
        digits_value(s.take(i)) <= digits_value(s),
    decreases s.len() - i,
{
    if i < s.len() {
        lemma_digits_value_prefix(s, i + 1);
        assert(s.take(i + 1).drop_last() =~= s.take(i));
        assert(digits_value(s.take(i)) <= digits_value(s.take(i + 1)));
    } else {
        assert(s.take(i) =~= s);
    }
}

/// Number of leading characters of `s` before the first `.`.
pub open spec fn dot_end(s: Seq<char>) -> nat
    decreases s.len(),
{
    if s.len() > 0 && s[0] != '.' {
        1 + dot_end(s.drop_first())
    } else {
        0
    }
}

/// `dot_end` is exactly the first `.` position.
proof fn lemma_dot_end_is(s: Seq<char>, j: int)
    requires
        0 <= j <= s.len(),
        forall|k: int| 0 <= k < j ==> s[k] != '.',
        j == s.len() || s[j] == '.',
    ensures
        dot_end(s) == j,
    decreases j,
{
    if j > 0 {
        lemma_dot_end_is(s.drop_first(), j - 1);
    }
}

/// Scans for the first `.` of `s`, or its end.
fn scan_dot_end(s: &str, len: usize) -> (j: usize)
    requires
        len == s@.len(),
    ensures
        j <= len,
        dot_end(s@) == j,
{
    let mut j: usize = 0;
    while j < len
        invariant
            j <= len,
            len == s@.len(),
            forall|k: int| 0 <= k < j ==> s@[k] != '.',
        decreases len - j,
    {
        if s.get_char(j) == '.' {
            proof {
                lemma_dot_end_is(s@, j as int);
            }
            return j;
        }
        j += 1;
    }
    proof {
        lemma_dot_end_is(s@, j as int);
    }
    j
}

/// Major version encoded in a version string: the numeral before the first
/// `.`, or the sentinel `999` when that prefix is not a `u32` numeral.
pub open spec fn major_of(version: Seq<char>) -> u32 {
    match parse_u32(version.take(dot_end(version) as int)) {
        Some(v) => v,
        None => 999,
    }
}

/// Reads one decimal digit.
fn digit_of(c: char) -> (r: Option<u32>)
    ensures
        match digit_val(c) {
            Some(d) => r == Some(d as u32),
            None => r is None,
        },
{
    match c {
        '0' => Some(0),
        '1' => Some(1),
        '2' => Some(2),
        '3' => Some(3),
        '4' => Some(4),
        '5' => Some(5),
        '6' => Some(6),
        '7' => Some(7),
        '8' => Some(8),
        '9' => Some(9),
        _ => None,
    }
}

/// Parses a `u32` numeral, exactly as [`parse_u32`] describes.
pub fn parse_u32_str(s: &str) -> (r: Option<u32>)
    ensures
        r == parse_u32(s@),
{
    let len = s.unicode_len();
    let start: usize = if len > 0 && s.get_char(0) == '+' {
        1
    } else {
        0
    };
    let ghost body = if start == 1 {
        s@.drop_first()
    } else {
        s@
    };
    proof {
        if start == 1 {
            assert(body =~= s@.skip(1));
        }
        assert(body.take(0) =~= Seq::<char>::empty());
    }
    if start == len {
        return None;
    }
    let mut acc: u64 = 0;
    let mut i: usize = start;
    while i < len
        invariant
            start <= i <= len,
            start <= 1,
            len == s@.len(),
            start == 1 <==> s@.len() > 0 && s@[0] == '+',
            start == 1 ==> body =~= s@.skip(1),
            start == 0 ==> body == s@,
            acc <= u32::MAX,
            all_digits(body.take(i - start)),
            acc == digits_value(body.take(i - start)),
        decreases len - i,
    {
        let c = s.get_char(i);
        let ghost pref = body.take(i - start);
        proof {
            assert(body.len() == len - start);
            assert(i + 1 - start <= body.len());
            assert(body.take(i + 1 - start).drop_last() =~= pref);
            assert(body.take(i + 1 - start).last() == body[i - start]);
            assert(body[i - start] == s@[i as int]);
        }
        match digit_of(c) {
            Some(d) => {
                acc = acc * 10 + (d as u64);
                if acc > (u32::MAX as u64) {
                    proof {
                        lemma_digits_value_prefix(body, i + 1 - start);
                    }
                    return None;
                }
            },
            None => {
                return None;
            },
        }
        i += 1;
    }
    proof {
        assert(body.take(len - start) =~= body);
    }
    Some(acc as u32)
}

/// Protocol generation of a shell version: which transport and which
/// extension-script variant this backend must use.
#[derive(Debug, Clone, Copy, PartialEq, Eq, Structural)]
pub enum ShellGeneration {
    /// Versions before 41: queries run through the generic script-evaluation
    /// call; no extension is needed.
    LegacyEval,
    /// Versions 41 through 44: queries run through the installed extension,
    /// written in the legacy script style.
    LegacyExtension,
    /// Versions 45 and later: queries run through the installed extension,
    /// written as an ESM class.
    ModernExtension,
}

/// Generation a numeric major version falls into.
pub open spec fn generation_of(version: u32) -> ShellGeneration {
    if version < 41 {
        ShellGeneration::LegacyEval
    } else if version < 45 {
        ShellGeneration::LegacyExtension
    } else {
        ShellGeneration::ModernExtension
    }
}

/// Parsed shell version: the numeric major version and whether the generic
/// evaluation transport must be used for queries.
#[derive(Debug, Clone, Copy, PartialEq, Eq, Structural)]
pub struct GnomeVersion {
    pub version: u32,
    pub use_eval: bool,
}

/// The version state a given version string resolves to.
pub open spec fn spec_gnome_version(version: Seq<char>) -> GnomeVersion {
    GnomeVersion { version: major_of(version), use_eval: major_of(version) < 41 }
}

impl GnomeVersion {
    /// Internal consistency: the transport flag follows the version number.
    pub open spec fn wf(self) -> bool {
        self.use_eval == (self.version < 41)
    }

    /// Classifies a version string such as `45.2`.
    pub fn new(version: &str) -> (r: GnomeVersion)
        ensures
            r == spec_gnome_version(version@),
            r.wf(),
    {
        let len = version.unicode_len();
        let j = scan_dot_end(version, len);
        proof {
            assert(version@.subrange(0, j as int) =~= version@.take(j as int));
        }
        let head = version.substring_char(0, j);
        let major = match parse_u32_str(head) {
            Some(v) => v,
            None => 999,
        };
        GnomeVersion { version: major, use_eval: major < 41 }
    }

    /// Protocol generation of this version.
    pub fn generation(&self) -> (g: ShellGeneration)
        ensures
            g == generation_of(self.version),
    {
        if self.version < 41 {
            ShellGeneration::LegacyEval
        } else if self.version < 45 {
            ShellGeneration::LegacyExtension
        } else {
            ShellGeneration::ModernExtension
        }
    }
}

/// Ghost image of a probe outcome: the probe's standard output, or `None`
/// when the probe command failed or was missing.
pub open spec fn probe_view(probe: Option<&str>) -> Option<Seq<char>> {
    match probe {
        Some(out) => Some(out@),
        None => None,
    }
}

/// Version state computed from one probe outcome.
pub open spec fn version_of_probe(probe: Option<Seq<char>>) -> GnomeVersion {
    match probe {
        Some(out) => spec_gnome_version(gnome_version_token(out)),
        None => GnomeVersion { version: 999, use_eval: false },
    }
}

/// What one resolution step does: an empty cache is filled from the probe
/// outcome, a filled cache answers by itself.
pub open spec fn resolve_spec(r: VersionResolver, probe: Option<Seq<char>>) -> (VersionResolver,
    GnomeVersion) {
    match r.cached {
        Some(c) => (r, c),
        None => {
            let v = version_of_probe(probe);
            (VersionResolver { cached: Some(v) }, v)
        },
    }
}

/// Caches the shell version for the lifetime of the owning facade, so the
/// probe command runs at most once. The original kept this state in a
/// process-wide singleton; here the owner constructs it explicitly.
#[derive(Debug, Clone, Copy, PartialEq, Eq, Structural)]
pub struct VersionResolver {
    pub cached: Option<GnomeVersion>,
}

impl VersionResolver {
    /// Internal consistency: whatever is cached is itself consistent.
    pub open spec fn wf(self) -> bool {
        match self.cached {
            Some(c) => c.wf(),
            None => true,
        }
    }

    /// A resolver that has not probed yet.
    pub fn new() -> (r: VersionResolver)
        ensures
            r.cached is None,
            r.wf(),
    {
        VersionResolver { cached: None }
    }

    /// Resolves the shell version. `probe` is the probe command's standard
    /// output, or `None` when the command failed; it is consulted only on
    /// the first call, and the computed state is cached.
    pub fn resolve(&mut self, probe: Option<&str>) -> (r: GnomeVersion)
        requires
            old(self).wf(),
        ensures
            final(self).wf(),
            *final(self) == resolve_spec(*old(self), probe_view(probe)).0,
            r == resolve_spec(*old(self), probe_view(probe)).1,
            final(self).cached == Some(r),
            r.wf(),
    {
        match self.cached {
            Some(c) => c,
            None => {
                let v = match probe {
                    Some(out) => {
                        let token = parse_gnome_version(out);
                        GnomeVersion::new(token.as_str())
                    },
                    None => GnomeVersion { version: 999, use_eval: false },
                };
                self.cached = Some(v);
                v
            },
        }
    }
}

/// Law: resolution is idempotent. Whatever a second probe would report, a
/// second resolution step returns exactly the state the first one computed,
/// and leaves the cache unchanged.
pub proof fn lemma_resolve_idempotent(
    r: VersionResolver,
    p1: Option<Seq<char>>,
    p2: Option<Seq<char>>,
)
    ensures
        resolve_spec(resolve_spec(r, p1).0, p2) == resolve_spec(r, p1),
{
}

} // verus!
