//! Model of the RPC transport.
//!
//! Every query and lifecycle operation of this backend is one synchronous
//! session-bus call: open a connection, send one request, read one reply.
//! The calls themselves happen at the process boundary; what they came to is
//! handed back to the library as one of the plain outcome values below, and
//! the library decides — with exact contracts — what each outcome means.

use vstd::prelude::*;

use crate::json::Json;

verus! {

/// Body of a reply, as the process boundary hands it in: the reply string
/// parsed into the library's JSON model, or the two ways it can fail to be.
pub enum Payload {
    /// The reply string was empty.
    Empty,
    /// The reply string parsed as JSON.
    Parsed(Json),
    /// The reply string was non-empty but not valid JSON.
    Malformed,
}

/// What one generic script-evaluation call came to. The shell answers an
/// `Eval` request with a success flag and a result string.
pub enum EvalOutcome {
    /// No session-bus connection could be established.
    NoConnection,
    /// The connection stood, but the call itself failed.
    CallFailed,
    /// The shell replied.
    Reply { success: bool, payload: Payload },
}

/// What one call on the extension's exported interface, or on the shell's
/// extension-information method, came to.
pub enum CallOutcome {
    /// No session-bus connection could be established.
    NoConnection,
    /// The connection stood, but the call failed: for the extension's own
    /// interface this means the extension is missing, disabled or
    /// incompatible.
    CallFailed,
    /// The reply carried no body at all — distinct from a reply whose
    /// string is empty, which arrives as a [`Payload::Empty`].
    EmptyReply,
    /// The method replied with a string body.
    Reply { payload: Payload },
}

/// What one `EnableExtension`/`DisableExtension` call came to.
pub enum ToggleOutcome {
    /// No session-bus connection could be established.
    NoConnection,
    /// The connection stood, but the call itself failed.
    CallFailed,
    /// The shell reported whether the toggle took effect.
    Reply { value: bool },
    /// The reply body was empty.
    EmptyReply,
    /// The reply body held no boolean.
    BadReply,
}

/// What one routed query call came to: the facade selects the transport, so
/// the outcome arrives tagged with the transport that produced it.
pub enum QueryOutcome {
    /// The query ran through the generic evaluation call.
    Eval(EvalOutcome),
    /// The query ran through the extension's exported interface.
    Extension(CallOutcome),
}

/// A query request the process boundary must perform, as the facade routes
/// it: either a script for the generic evaluation call, or a named method on
/// the extension's exported interface, with the window id sent as the
/// shell's RPC typing demands.
pub enum QueryRequest {
    /// Call `Eval` on the shell with this script.
    Eval { script: String },
    /// Call this method on the extension's exported interface; an argument,
    /// when present, is a window id to be sent as a floating-point number.
    Extension { method: String, arg: Option<u32> },
}

} // verus!
