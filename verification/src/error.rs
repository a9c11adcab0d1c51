//! Error model of the library.
//!
//! The original surface reported every failure through one opaque error
//! value; here each failure keeps its cause, so callers can tell an
//! unreachable session bus (the desktop environment itself is gone) from a
//! missing extension or a malformed payload, as the error taxonomy of this
//! backend demands.

use vstd::prelude::*;

verus! {

/// What went wrong while talking to the desktop shell.
#[derive(Debug, Clone, PartialEq, Eq)]
pub enum ErrorKind {
    /// No session-bus connection could be established: the desktop
    /// environment itself is unreachable. Never silently defaulted.
    Connection,
    /// The generic script-evaluation call failed, or the shell reported an
    /// unsuccessful evaluation.
    EvalFailed,
    /// A call on the extension's exported interface returned an empty body.
    NoReply,
    /// A call on the extension's exported interface failed: the extension is
    /// missing, disabled, or incompatible.
    ExtensionUnavailable,
    /// The active-window payload did not hold a window object.
    NoData,
    /// The reply was not a JSON document of the expected shape.
    MalformedPayload,
    /// The extension-information payload was missing or held no usable
    /// `enabled` field.
    InfoUnavailable,
    /// Enabling or disabling the extension brought no boolean back.
    ToggleFailed,
    /// An extension artifact file could not be written; holds the path.
    WriteFailed { path: String },
}

/// Error value returned by every fallible operation of this backend.
#[derive(Debug, Clone, PartialEq, Eq)]
pub struct XWinError {
    pub kind: ErrorKind,
}

impl XWinError {
    /// Wraps an [`ErrorKind`].
    pub fn new(kind: ErrorKind) -> (r: XWinError)
        ensures
            r.kind == kind,
    {
        XWinError { kind }
    }

    /// Human-readable description, matching the wording this backend has
    /// always reported for each failure.
    pub fn message(&self) -> (r: String)
        ensures
            self.kind matches ErrorKind::Connection ==> r@
                == "Unable to establish a session bus connection!"@,
            self.kind matches ErrorKind::EvalFailed ==> r@
                == "Not possible to execute eval gnome shell"@,
            self.kind matches ErrorKind::NoReply ==> r@
                == "No result when calling org.gnome.Shell.Extensions.XWinWaylandExtension gnome script!"@,
            self.kind matches ErrorKind::ExtensionUnavailable ==> r@
                == "Unable to get informations from \"x-win@miniben90.org\" extension via GNOME Shell. Please verify that the extension is correctly installed or enabled."@,
            self.kind matches ErrorKind::NoData ==> r@ == "No data founded for active window"@,
            self.kind matches ErrorKind::MalformedPayload ==> r@
                == "Unable to decode the JSON payload returned by GNOME Shell!"@,
            self.kind matches ErrorKind::InfoUnavailable ==> r@
                == "Unable to get information for \"x-win@miniben90.org\" extension via GNOME Shell. Please verify that the extension is correctly installed."@,
            self.kind matches ErrorKind::ToggleFailed ==> r@
                == "Unable to enable or disable the x-win@miniben90.org extension via GNOME Shell. Please verify that the extension is correctly installed."@,
            self.kind matches ErrorKind::WriteFailed { path } ==> r@ == "Not possible to write \""@
                + path@ + "\" file!"@,
    {
        match &self.kind {
            ErrorKind::Connection => String::from_str(
                "Unable to establish a session bus connection!",
            ),
            ErrorKind::EvalFailed => String::from_str("Not possible to execute eval gnome shell"),
            ErrorKind::NoReply => String::from_str(
                "No result when calling org.gnome.Shell.Extensions.XWinWaylandExtension gnome script!",
            ),
            ErrorKind::ExtensionUnavailable => String::from_str(
                "Unable to get informations from \"x-win@miniben90.org\" extension via GNOME Shell. Please verify that the extension is correctly installed or enabled.",
            ),
            ErrorKind::NoData => String::from_str("No data founded for active window"),
            ErrorKind::MalformedPayload => String::from_str(
                "Unable to decode the JSON payload returned by GNOME Shell!",
            ),
            ErrorKind::InfoUnavailable => String::from_str(
                "Unable to get information for \"x-win@miniben90.org\" extension via GNOME Shell. Please verify that the extension is correctly installed.",
            ),
            ErrorKind::ToggleFailed => String::from_str(
                "Unable to enable or disable the x-win@miniben90.org extension via GNOME Shell. Please verify that the extension is correctly installed.",
            ),
            ErrorKind::WriteFailed { path } => String::from_str("Not possible to write \"").concat(
                path.as_str(),
            ).concat("\" file!"),
        }
    }
}

} // verus!
