//! Facade of the Wayland backend.
//!
//! Holds the version resolver, routes every query to the backend the
//! resolved shell generation selects — the eval backend for shells older
//! than 41, the extension backend otherwise — and gates the extension
//! lifecycle operations, which only the extension generations support.

use vstd::prelude::*;

use crate::api::{empty_icon_view, get_browser_url, empty_icon};
use crate::error::{ErrorKind, XWinError};
use crate::gnome_shell::{GnomeVersion, VersionResolver, probe_view, resolve_spec};
use crate::rpc::{CallOutcome, EvalOutcome, Payload, QueryOutcome, QueryRequest, ToggleOutcome};
use crate::wayland_eval_api;
use crate::wayland_extension_api;
use crate::wayland_extension_api::{extension_script_text, ExtensionArtifact};
use crate::x_win_struct::icon_info::{IconInfo, IconInfoView};
use crate::x_win_struct::window_info::{WindowInfo, WindowInfoView};

verus! {

/// The Wayland backend: owns the version cache that selects the protocol
/// generation. The original kept that cache in ambient process-wide state;
/// here the facade is constructed explicitly and carries it.
pub struct WaylandApi {
    pub resolver: VersionResolver,
}

impl WaylandApi {
    /// Internal consistency of the cached state.
    pub open spec fn wf(self) -> bool {
        self.resolver.wf()
    }

    /// A facade that has not probed the shell yet.
    pub fn new() -> (r: WaylandApi)
        ensures
            r.resolver.cached is None,
            r.wf(),
    {
        WaylandApi { resolver: VersionResolver::new() }
    }

    /// Resolves the shell version, probing at most once for the lifetime of
    /// this facade.
    pub fn resolve(&mut self, probe: Option<&str>) -> (r: GnomeVersion)
        requires
            old(self).wf(),
        ensures
            final(self).wf(),
            final(self).resolver == resolve_spec(old(self).resolver, probe_view(probe)).0,
            r == resolve_spec(old(self).resolver, probe_view(probe)).1,
            final(self).resolver.cached == Some(r),
            r.wf(),
    {
        self.resolver.resolve(probe)
    }
}

/// Routes an active-window query: the eval generation sends its script
/// bundle, the extension generations call the exported method.
pub fn get_active_window_request(v: &GnomeVersion) -> (r: QueryRequest)
    ensures
        v.use_eval ==> (r matches QueryRequest::Eval { script } && script@
            == wayland_eval_api::active_window_script()),
        !v.use_eval ==> (r matches QueryRequest::Extension { method, arg } && method@
            == "get_active_window"@ && arg is None),
{
    if gnome_use_eval(v) {
        QueryRequest::Eval { script: wayland_eval_api::get_active_window_script() }
    } else {
        QueryRequest::Extension { method: String::from_str("get_active_window"), arg: None }
    }
}

/// Routes an open-windows query.
pub fn get_open_windows_request(v: &GnomeVersion) -> (r: QueryRequest)
    ensures
        v.use_eval ==> (r matches QueryRequest::Eval { script } && script@
            == wayland_eval_api::open_windows_script()),
        !v.use_eval ==> (r matches QueryRequest::Extension { method, arg } && method@
            == "get_open_windows"@ && arg is None),
{
    if gnome_use_eval(v) {
        QueryRequest::Eval { script: wayland_eval_api::get_open_windows_script() }
    } else {
        QueryRequest::Extension { method: String::from_str("get_open_windows"), arg: None }
    }
}

/// One step of a routed icon query: either the answer, or the request to
/// perform.
pub enum IconPlan {
    /// No call is needed; this is the answer.
    Done(IconInfo),
    /// Perform this request and hand the outcome to [`get_app_icon`].
    Request(QueryRequest),
}

/// Routes an icon query. A window id of zero names no window: no request is
/// issued for it on either backend, and the empty icon is the synchronous
/// answer.
pub fn get_app_icon_query(v: &GnomeVersion, window_info: &WindowInfo) -> (r: IconPlan)
    ensures
        window_info.id == 0 ==> (r matches IconPlan::Done(i) && i@ == empty_icon_view()),
        window_info.id != 0 && v.use_eval ==> (r matches IconPlan::Request(q) && q matches
            QueryRequest::Eval { script } && script@ == wayland_eval_api::icon_script(
            window_info.id as nat,
        )),
        window_info.id != 0 && !v.use_eval ==> (r matches IconPlan::Request(q) && q matches
            QueryRequest::Extension { method, arg } && method@ == "get_icon"@ && arg == Some(
            window_info.id,
        )),
{
    if window_info.id == 0 {
        IconPlan::Done(empty_icon())
    } else if gnome_use_eval(v) {
        IconPlan::Request(
            QueryRequest::Eval { script: wayland_eval_api::get_icon_script(window_info.id) },
        )
    } else {
        IconPlan::Request(
            QueryRequest::Extension {
                method: String::from_str("get_icon"),
                arg: Some(window_info.id),
            },
        )
    }
}

/// The window record a routed active-window query yields: each generation's
/// backend decides its own outcomes; a reply from the transport the facade
/// did not select counts as that backend's failed call.
pub open spec fn active_window_result(v: GnomeVersion, o: QueryOutcome) -> Result<
    WindowInfoView,
    ErrorKind,
> {
    if v.use_eval {
        match o {
            QueryOutcome::Eval(e) => wayland_eval_api::active_window_result(e),
            QueryOutcome::Extension(_) => wayland_eval_api::active_window_result(
                EvalOutcome::CallFailed,
            ),
        }
    } else {
        match o {
            QueryOutcome::Extension(c) => wayland_extension_api::active_window_result(c),
            QueryOutcome::Eval(_) => wayland_extension_api::active_window_result(
                CallOutcome::CallFailed,
            ),
        }
    }
}

/// Completes a routed active-window query, exactly as
/// [`active_window_result`] describes.
pub fn get_active_window(v: &GnomeVersion, outcome: &QueryOutcome) -> (r: Result<
    WindowInfo,
    XWinError,
>)
    ensures
        match active_window_result(*v, *outcome) {
            Ok(wv) => r matches Ok(w) && w@ == wv,
            Err(k) => r matches Err(e) && e.kind == k,
        },
{
    if gnome_use_eval(v) {
        match outcome {
            QueryOutcome::Eval(e) => wayland_eval_api::get_active_window(e),
            QueryOutcome::Extension(_) => wayland_eval_api::get_active_window(
                &EvalOutcome::CallFailed,
            ),
        }
    } else {
        match outcome {
            QueryOutcome::Extension(c) => wayland_extension_api::get_active_window(c),
            QueryOutcome::Eval(_) => wayland_extension_api::get_active_window(
                &CallOutcome::CallFailed,
            ),
        }
    }
}

/// The window list a routed open-windows query yields.
pub open spec fn open_windows_result(v: GnomeVersion, o: QueryOutcome) -> Result<
    Seq<WindowInfoView>,
    ErrorKind,
> {
    if v.use_eval {
        match o {
            QueryOutcome::Eval(e) => wayland_eval_api::open_windows_result(e),
            QueryOutcome::Extension(_) => wayland_eval_api::open_windows_result(
                EvalOutcome::CallFailed,
            ),
        }
    } else {
        match o {
            QueryOutcome::Extension(c) => wayland_extension_api::open_windows_result(c),
            QueryOutcome::Eval(_) => wayland_extension_api::open_windows_result(
                CallOutcome::CallFailed,
            ),
        }
    }
}

/// Completes a routed open-windows query, exactly as [`open_windows_result`]
/// describes.
pub fn get_open_windows(v: &GnomeVersion, outcome: &QueryOutcome) -> (r: Result<
    Vec<WindowInfo>,
    XWinError,
>)
    ensures
        match open_windows_result(*v, *outcome) {
            Ok(ws) => r matches Ok(vs) && crate::decoder::window_views(vs@) == ws,
            Err(k) => r matches Err(e) && e.kind == k,
        },
{
    if gnome_use_eval(v) {
        match outcome {
            QueryOutcome::Eval(e) => wayland_eval_api::get_open_windows(e),
            QueryOutcome::Extension(_) => wayland_eval_api::get_open_windows(
                &EvalOutcome::CallFailed,
            ),
        }
    } else {
        match outcome {
            QueryOutcome::Extension(c) => wayland_extension_api::get_open_windows(c),
            QueryOutcome::Eval(_) => wayland_extension_api::get_open_windows(
                &CallOutcome::CallFailed,
            ),
        }
    }
}

/// The icon record a routed icon query yields.
pub open spec fn app_icon_result(v: GnomeVersion, id: u32, o: QueryOutcome) -> Result<
    IconInfoView,
    ErrorKind,
> {
    if v.use_eval {
        match o {
            QueryOutcome::Eval(e) => wayland_eval_api::icon_result(id, e),
            QueryOutcome::Extension(_) => wayland_eval_api::icon_result(
                id,
                EvalOutcome::CallFailed,
            ),
        }
    } else {
        match o {
            QueryOutcome::Extension(c) => wayland_extension_api::icon_result(id, c),
            QueryOutcome::Eval(_) => wayland_extension_api::icon_result(
                id,
                CallOutcome::CallFailed,
            ),
        }
    }
}

/// Completes a routed icon query, exactly as [`app_icon_result`] describes.
pub fn get_app_icon(v: &GnomeVersion, window_info: &WindowInfo, outcome: &QueryOutcome) -> (r:
    Result<IconInfo, XWinError>)
    ensures
        match app_icon_result(*v, window_info.id, *outcome) {
            Ok(iv) => r matches Ok(i) && i@ == iv,
            Err(k) => r matches Err(e) && e.kind == k,
        },
{
    if gnome_use_eval(v) {
        match outcome {
            QueryOutcome::Eval(e) => wayland_eval_api::get_icon(window_info, e),
            QueryOutcome::Extension(_) => wayland_eval_api::get_icon(
                window_info,
                &EvalOutcome::CallFailed,
            ),
        }
    } else {
        match outcome {
            QueryOutcome::Extension(c) => wayland_extension_api::get_icon(window_info, c),
            QueryOutcome::Eval(_) => wayland_extension_api::get_icon(
                window_info,
                &CallOutcome::CallFailed,
            ),
        }
    }
}

/// Whether queries must run through the generic evaluation transport.
pub fn gnome_use_eval(v: &GnomeVersion) -> (b: bool)
    ensures
        b == v.use_eval,
{
    v.use_eval
}

/// The URL reply of this backend: always the fixed "not supported" string,
/// never an error, whatever window is asked about.
pub fn wayland_browser_url(_window_info: &WindowInfo) -> (r: Result<String, XWinError>)
    ensures
        r matches Ok(s) && s@ == "URL recovery not supported on Linux distribution!"@,
{
    Ok(get_browser_url())
}

/// What installing comes to on each generation: the eval generation has no
/// extension to install, the others get the artifact to write.
pub enum InstallPlan {
    /// This generation runs without an extension; installing reports
    /// `false` and writes nothing.
    NotNeeded,
    /// Write this artifact, then settle with
    /// [`wayland_extension_api::install_extension_result`].
    Write(ExtensionArtifact),
}

/// Plans an installation for the resolved generation.
pub fn install_extension(v: &GnomeVersion) -> (r: InstallPlan)
    ensures
        v.use_eval ==> r matches InstallPlan::NotNeeded,
        !v.use_eval ==> (r matches InstallPlan::Write(a) && a.extension_js@
            == extension_script_text(v.version) && a.metadata_json@
            == crate::gnome_shell::GNOME_XWIN_EXTENSION_META@),
{
    if gnome_use_eval(v) {
        InstallPlan::NotNeeded
    } else {
        InstallPlan::Write(wayland_extension_api::install_extension(v))
    }
}

/// Settles an uninstallation: the eval generation has nothing to remove and
/// reports `false`; otherwise the report is whether the extension directory
/// could be removed.
pub fn uninstall_extension(v: &GnomeVersion, removed: bool) -> (r: Result<bool, XWinError>)
    ensures
        v.use_eval ==> r == Ok::<bool, XWinError>(false),
        !v.use_eval ==> r == Ok::<bool, XWinError>(removed),
{
    if gnome_use_eval(v) {
        Ok(false)
    } else {
        wayland_extension_api::uninstall_extension(removed)
    }
}

/// What a gated toggle comes to: `false` without a call on the eval
/// generation; otherwise the call's outcome decides, and a missing outcome
/// means the toggle never reached the shell.
pub open spec fn gated_toggle_result(v: GnomeVersion, o: Option<ToggleOutcome>) -> Result<
    bool,
    ErrorKind,
> {
    if v.use_eval {
        Ok(false)
    } else {
        match o {
            Some(outcome) => wayland_extension_api::toggle_result(outcome),
            None => Err(ErrorKind::ToggleFailed),
        }
    }
}

/// Routes an enable call: `None` when no call must be made.
pub fn enable_extension_request(v: &GnomeVersion) -> (r: Option<&'static str>)
    ensures
        v.use_eval ==> r is None,
        !v.use_eval ==> (r matches Some(m) && m@ == "EnableExtension"@),
{
    if gnome_use_eval(v) {
        None
    } else {
        Some(wayland_extension_api::toggle_extension_method(true))
    }
}

/// Routes a disable call: `None` when no call must be made.
pub fn disable_extension_request(v: &GnomeVersion) -> (r: Option<&'static str>)
    ensures
        v.use_eval ==> r is None,
        !v.use_eval ==> (r matches Some(m) && m@ == "DisableExtension"@),
{
    if gnome_use_eval(v) {
        None
    } else {
        Some(wayland_extension_api::toggle_extension_method(false))
    }
}

/// Settles an enable call, exactly as [`gated_toggle_result`] describes.
pub fn enable_extension(v: &GnomeVersion, outcome: Option<&ToggleOutcome>) -> (r: Result<
    bool,
    XWinError,
>)
    ensures
        match gated_toggle_result(*v, deref_opt(outcome)) {
            Ok(b) => r == Ok::<bool, XWinError>(b),
            Err(k) => r matches Err(e) && e.kind == k,
        },
{
    gated_toggle(v, outcome)
}

/// Settles a disable call, exactly as [`gated_toggle_result`] describes.
pub fn disable_extension(v: &GnomeVersion, outcome: Option<&ToggleOutcome>) -> (r: Result<
    bool,
    XWinError,
>)
    ensures
        match gated_toggle_result(*v, deref_opt(outcome)) {
            Ok(b) => r == Ok::<bool, XWinError>(b),
            Err(k) => r matches Err(e) && e.kind == k,
        },
{
    gated_toggle(v, outcome)
}

/// Ghost image of an optional borrowed outcome.
pub open spec fn deref_opt<T>(o: Option<&T>) -> Option<T> {
    match o {
        Some(x) => Some(*x),
        None => None,
    }
}

fn gated_toggle(v: &GnomeVersion, outcome: Option<&ToggleOutcome>) -> (r: Result<bool, XWinError>)
    ensures
        match gated_toggle_result(*v, deref_opt(outcome)) {
            Ok(b) => r == Ok::<bool, XWinError>(b),
            Err(k) => r matches Err(e) && e.kind == k,
        },
{
    if gnome_use_eval(v) {
        Ok(false)
    } else {
        match outcome {
            Some(o) => wayland_extension_api::toggle_extension(o),
            None => Err(XWinError::new(ErrorKind::ToggleFailed)),
        }
    }
}

/// What a gated installed-state query comes to.
pub open spec fn gated_is_installed_result(v: GnomeVersion, o: Option<CallOutcome>) -> Result<
    bool,
    ErrorKind,
> {
    if v.use_eval {
        Ok(false)
    } else {
        match o {
            Some(outcome) => wayland_extension_api::is_installed_result(outcome),
            None => Err(ErrorKind::InfoUnavailable),
        }
    }
}

/// Settles an installed-state query, exactly as
/// [`gated_is_installed_result`] describes.
pub fn is_installed_extension(v: &GnomeVersion, outcome: Option<&CallOutcome>) -> (r: Result<
    bool,
    XWinError,
>)
    ensures
        match gated_is_installed_result(*v, deref_opt(outcome)) {
            Ok(b) => r == Ok::<bool, XWinError>(b),
            Err(k) => r matches Err(e) && e.kind == k,
        },
{
    if gnome_use_eval(v) {
        Ok(false)
    } else {
        match outcome {
            Some(o) => wayland_extension_api::is_installed_extension(o),
            None => Err(XWinError::new(ErrorKind::InfoUnavailable)),
        }
    }
}

/// Law, library half of the install/query pair: on an extension
/// generation, once the shell reports the extension with a non-empty
/// payload — as it does when a completed installation has taken effect and
/// the bus is reachable — an installed-state query answers `true`. That the
/// shell reports it after the artifact is written is the process boundary's
/// part, outside the library.
pub proof fn lemma_installed_after_install(v: GnomeVersion, payload: Payload)
    requires
        !v.use_eval,
        !(payload matches Payload::Empty),
    ensures
        gated_is_installed_result(v, Some(CallOutcome::Reply { payload })) == Ok::<
            bool,
            ErrorKind,
        >(true),
{
}

/// Law, library half of the uninstall/query pair: on an extension
/// generation, once the shell no longer reports the extension — the info
/// call fails, replies without a body, or replies the empty string — an
/// installed-state query answers `false`.
pub proof fn lemma_not_installed_after_uninstall(v: GnomeVersion, o: CallOutcome)
    requires
        !v.use_eval,
        (o matches CallOutcome::CallFailed) || (o matches CallOutcome::EmptyReply) || (o matches
        CallOutcome::Reply { payload: Payload::Empty }),
    ensures
        gated_is_installed_result(v, Some(o)) == Ok::<bool, ErrorKind>(false),
{
}

/// What a gated enabled-state query comes to.
pub open spec fn gated_is_enabled_result(v: GnomeVersion, o: Option<CallOutcome>) -> Result<
    bool,
    ErrorKind,
> {
    if v.use_eval {
        Ok(false)
    } else {
        match o {
            Some(outcome) => wayland_extension_api::is_enabled_result(outcome),
            None => Err(ErrorKind::InfoUnavailable),
        }
    }
}

/// Settles an enabled-state query, exactly as [`gated_is_enabled_result`]
/// describes.
pub fn is_enabled_extension(v: &GnomeVersion, outcome: Option<&CallOutcome>) -> (r: Result<
    bool,
    XWinError,
>)
    ensures
        match gated_is_enabled_result(*v, deref_opt(outcome)) {
            Ok(b) => r == Ok::<bool, XWinError>(b),
            Err(k) => r matches Err(e) && e.kind == k,
        },
{
    if gnome_use_eval(v) {
        Ok(false)
    } else {
        match outcome {
            Some(o) => wayland_extension_api::is_enabled_extension(o),
            None => Err(XWinError::new(ErrorKind::InfoUnavailable)),
        }
    }
}

} // verus!
