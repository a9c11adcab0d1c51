//! Shared backend surface: the query contract every platform backend
//! implements, and the empty records queries fall back to.

use vstd::prelude::*;

use crate::error::XWinError;
use crate::x_win_struct::icon_info::{IconInfo, IconInfoView};
use crate::x_win_struct::process_info::{ProcessInfo, ProcessInfoView};
use crate::x_win_struct::usage_info::UsageInfo;
use crate::x_win_struct::window_info::{WindowInfo, WindowInfoView};
use crate::x_win_struct::window_position::WindowPosition;

verus! {

/// Query surface shared by every platform backend. The library provides the
/// verified decision and decoding logic behind it; impls that drive a live
/// desktop session sit at the process boundary.
pub trait Api {
    /// Information about the currently active window.
    fn get_active_window(&self) -> Result<WindowInfo, XWinError>;

    /// Information about every open window.
    fn get_open_windows(&self) -> Result<Vec<WindowInfo>, XWinError>;

    /// Icon of the given window's application.
    fn get_app_icon(&self, window_info: &WindowInfo) -> Result<IconInfo, XWinError>;

    /// URL shown by the given window, where the platform can recover one.
    fn get_browser_url(&self, window_info: &WindowInfo) -> Result<String, XWinError>;
}

/// Extension lifecycle contract of the GNOME backend: writing, removing,
/// enabling and disabling the helper extension. The library provides the
/// verified planning and settling logic behind it; impls that touch a live
/// session sit at the process boundary.
pub trait APIGnome {
    /// Writes the extension artifact for the resolved shell generation.
    fn install_extension() -> Result<bool, XWinError>;

    /// Removes the extension from disk.
    fn uninstall_extension() -> Result<bool, XWinError>;

    /// Enables the extension in the running shell.
    fn enable_extension() -> Result<bool, XWinError>;

    /// Disables the extension in the running shell.
    fn disable_extension() -> Result<bool, XWinError>;

    /// Whether the extension is installed.
    fn is_installed_extension() -> Result<bool, XWinError>;

    /// Whether the extension is enabled.
    fn is_enabled_extension() -> Result<bool, XWinError>;
}

/// Name of the operating system this backend reports for every window.
pub fn os_name() -> (r: String)
    ensures
        r@ == "linux"@,
{
    String::from_str("linux")
}

/// Value of the record no window fills: every number zero, every string the
/// OS name or empty.
pub open spec fn empty_entity_view() -> WindowInfoView {
    WindowInfoView {
        id: 0,
        os: "linux"@,
        title: Seq::<char>::empty(),
        position: WindowPosition { x: 0, y: 0, width: 0, height: 0, is_full_screen: false },
        info: ProcessInfoView {
            process_id: 0,
            path: Seq::<char>::empty(),
            name: Seq::<char>::empty(),
            exec_name: Seq::<char>::empty(),
        },
        usage: UsageInfo { memory: 0 },
    }
}

/// Value of the icon record no icon fills.
pub open spec fn empty_icon_view() -> IconInfoView {
    IconInfoView { data: Seq::<char>::empty(), height: 0, width: 0 }
}

/// The window record reported when no window matches a query.
pub fn empty_entity() -> (r: WindowInfo)
    ensures
        r@ == empty_entity_view(),
{
    WindowInfo {
        id: 0,
        os: os_name(),
        title: String::new(),
        position: WindowPosition { x: 0, y: 0, width: 0, height: 0, is_full_screen: false },
        info: ProcessInfo {
            process_id: 0,
            path: String::new(),
            name: String::new(),
            exec_name: String::new(),
        },
        usage: UsageInfo { memory: 0 },
    }
}

/// The icon record reported when no icon can be recovered.
pub fn empty_icon() -> (r: IconInfo)
    ensures
        r@ == empty_icon_view(),
{
    IconInfo { data: String::new(), height: 0, width: 0 }
}

/// An empty window record stamped with this backend's OS name.
pub fn init_entity() -> (r: WindowInfo)
    ensures
        r@ == empty_entity_view(),
{
    let mut window_info = empty_entity();
    window_info.os = os_name();
    window_info
}

/// The fixed reply for URL queries on this backend: no underlying
/// capability exists, and callers must not treat that as an error.
pub fn get_browser_url() -> (r: String)
    ensures
        r@ == "URL recovery not supported on Linux distribution!"@,
{
    String::from_str("URL recovery not supported on Linux distribution!")
}

} // verus!
