//! Verified core of a cross-desktop window-introspection library.
//!
//! The heart of the crate is the Wayland/GNOME-Shell integration: the one
//! backend that cannot ask the window manager directly and instead speaks a
//! versioned RPC protocol with the desktop shell, installs a helper shell
//! extension on disk, and decodes the JSON payloads the shell returns.
//!
//! Everything here is pure decision and data logic, verified by Verus. The
//! process boundary — the session-bus calls, the version-probe subprocess and
//! the file writes — lives outside the library and hands in plain values:
//! the library builds the requests and proves exact contracts about how every
//! possible reply is turned into results.

use vstd::prelude::*;

pub mod api;
pub mod decoder;
pub mod error;
pub mod gnome_shell;
pub mod json;
pub mod linux;
pub mod rpc;
pub mod text;
pub mod wayland_api;
pub mod wayland_eval_api;
pub mod wayland_extension_api;
pub mod wayland_new_api;
pub mod x_win_struct;

pub use api::{empty_entity, empty_icon, os_name, Api, APIGnome};
pub use error::{ErrorKind, XWinError};
pub use gnome_shell::{GnomeVersion, ShellGeneration, VersionResolver};
pub use wayland_api::{
    disable_extension, enable_extension, get_active_window, get_open_windows, install_extension,
    is_enabled_extension, is_installed_extension, uninstall_extension, WaylandApi,
};
pub use x_win_struct::icon_info::IconInfo;
pub use x_win_struct::process_info::ProcessInfo;
pub use x_win_struct::usage_info::UsageInfo;
pub use x_win_struct::window_info::WindowInfo;
pub use x_win_struct::window_position::WindowPosition;

verus! {

/// Recovers the icon of a window through the backend the resolved shell
/// generation selects.
pub fn get_window_icon(
    v: &GnomeVersion,
    window_info: &WindowInfo,
    outcome: &rpc::QueryOutcome,
) -> (r: Result<IconInfo, XWinError>)
    ensures
        match wayland_api::app_icon_result(*v, window_info.id, *outcome) {
            Ok(iv) => r matches Ok(i) && i@ == iv,
            Err(k) => r matches Err(e) && e.kind == k,
        },
{
    wayland_api::get_app_icon(v, window_info, outcome)
}

/// Recovers the browser URL of a window. On this backend no such
/// capability exists: the reply is always the fixed "not supported"
/// string, and never an error.
pub fn get_browser_url(window_info: &WindowInfo) -> (r: Result<String, XWinError>)
    ensures
        r matches Ok(s) && s@ == "URL recovery not supported on Linux distribution!"@,
{
    wayland_api::wayland_browser_url(window_info)
}

} // verus!
