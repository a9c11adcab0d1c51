//! Entry points of the Linux platform backend.
//!
//! On a Wayland session the GNOME facade does the work; these functions
//! construct it and expose the extension lifecycle under the names the rest
//! of the platform uses.

use vstd::prelude::*;

use crate::error::XWinError;
use crate::gnome_shell::GnomeVersion;
use crate::rpc::ToggleOutcome;
use crate::wayland_api;
use crate::wayland_api::{InstallPlan, WaylandApi, gated_toggle_result, deref_opt};

verus! {

/// Whether the desktop session runs on Wayland: true exactly when the
/// session's display variable is set and non-empty. The process boundary
/// reads the variable and hands its value in.
pub fn is_wayland_desktop(wayland_display: Option<&str>) -> (b: bool)
    ensures
        b == (wayland_display matches Some(s) && s@.len() > 0),
{
    match wayland_display {
        Some(s) => !s.is_empty(),
        None => false,
    }
}

/// Builds the platform backend: the Wayland facade with an empty version
/// cache.
pub fn init_platform_api() -> (r: WaylandApi)
    ensures
        r.resolver.cached is None,
        r.wf(),
{
    WaylandApi::new()
}

/// Plans the extension installation for the resolved generation.
pub fn gnome_install_extension(v: &GnomeVersion) -> (r: InstallPlan)
    ensures
        v.use_eval ==> r matches InstallPlan::NotNeeded,
        !v.use_eval ==> (r matches InstallPlan::Write(a) && a.extension_js@
            == crate::wayland_extension_api::extension_script_text(v.version) && a.metadata_json@
            == crate::gnome_shell::GNOME_XWIN_EXTENSION_META@),
{
    wayland_api::install_extension(v)
}

/// Settles the extension removal for the resolved generation.
pub fn gnome_uninstall_extension(v: &GnomeVersion, removed: bool) -> (r: Result<bool, XWinError>)
    ensures
        v.use_eval ==> r == Ok::<bool, XWinError>(false),
        !v.use_eval ==> r == Ok::<bool, XWinError>(removed),
{
    wayland_api::uninstall_extension(v, removed)
}

/// Settles an enable call for the resolved generation.
pub fn gnome_enable_extension(v: &GnomeVersion, outcome: Option<&ToggleOutcome>) -> (r: Result<
    bool,
    XWinError,
>)
    ensures
        match gated_toggle_result(*v, deref_opt(outcome)) {
            Ok(b) => r == Ok::<bool, XWinError>(b),
            Err(k) => r matches Err(e) && e.kind == k,
        },
{
    wayland_api::enable_extension(v, outcome)
}

/// Settles a disable call for the resolved generation.
pub fn gnome_disable_extension(v: &GnomeVersion, outcome: Option<&ToggleOutcome>) -> (r: Result<
    bool,
    XWinError,
>)
    ensures
        match gated_toggle_result(*v, deref_opt(outcome)) {
            Ok(b) => r == Ok::<bool, XWinError>(b),
            Err(k) => r matches Err(e) && e.kind == k,
        },
{
    wayland_api::disable_extension(v, outcome)
}

} // verus!
