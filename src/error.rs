//! Errors surfaced to the calling engine as error replies.
use vstd::prelude::*;

verus! {

/// Why a manager operation failed.
#[derive(Clone, Debug, PartialEq, Eq)]
pub enum PlatformError {
    /// The native adapter lacks the capability on this platform.
    NotImplemented,
    /// No window is known under the given handle.
    NoWindow,
    /// No menu is known under the given handle.
    NoMenu,
    /// A native drag was attempted with no anchoring input event.
    NoEventFound,
    /// The engine failed to start.
    LaunchEngineFailure,
    /// Message delivery to the named channel failed.
    SendMessageFailure { channel: String },
    /// A platform-native error code.
    HResult(u32),
    /// The request was malformed (for example a menu with repeated item ids).
    InvalidArgument,
    /// Anything else.
    UnknownError,
}

/// The error carried by a failed reply: a code, a human readable message,
/// and details where the error has any.
pub struct MethodCallError {
    pub code: String,
    pub message: String,
    pub details: Option<String>,
}

pub open spec fn error_message(e: PlatformError) -> Seq<char> {
    match e {
        PlatformError::NotImplemented => "Not implemented on this platform"@,
        PlatformError::NoWindow => "Window not found"@,
        PlatformError::NoMenu => "Menu not found"@,
        PlatformError::NoEventFound => "Action requires prior mouse event and the event was not found."@,
        PlatformError::LaunchEngineFailure => "Failed to launch engine"@,
        PlatformError::SendMessageFailure { .. } => "Failed to send message on channel"@,
        PlatformError::HResult(_) => "Platform error"@,
        PlatformError::InvalidArgument => "Invalid argument"@,
        PlatformError::UnknownError => "Unknown Error"@,
    }
}

pub open spec fn error_code(e: PlatformError) -> Seq<char> {
    match e {
        PlatformError::NotImplemented => "not-implemented"@,
        PlatformError::NoWindow => "no-window"@,
        PlatformError::NoMenu => "no-menu"@,
        PlatformError::NoEventFound => "no-event-found"@,
        PlatformError::LaunchEngineFailure => "launch-failure"@,
        PlatformError::SendMessageFailure { .. } => "send-failure"@,
        PlatformError::HResult(_) => "hresult"@,
        PlatformError::InvalidArgument => "invalid-argument"@,
        PlatformError::UnknownError => "unknown-error"@,
    }
}

impl PlatformError {
    /// The reply error code under which this error reaches the engine.
    pub fn code(&self) -> (r: &'static str)
        ensures
            r@ == error_code(*self),
    {
        proof {
            reveal_strlit("not-implemented");
            reveal_strlit("no-window");
            reveal_strlit("no-menu");
            reveal_strlit("no-event-found");
            reveal_strlit("launch-failure");
            reveal_strlit("send-failure");
            reveal_strlit("hresult");
            reveal_strlit("invalid-argument");
            reveal_strlit("unknown-error");
        }
        match self {
            PlatformError::NotImplemented => "not-implemented",
            PlatformError::NoWindow => "no-window",
            PlatformError::NoMenu => "no-menu",
            PlatformError::NoEventFound => "no-event-found",
            PlatformError::LaunchEngineFailure => "launch-failure",
            PlatformError::SendMessageFailure { .. } => "send-failure",
            PlatformError::HResult(_) => "hresult",
            PlatformError::InvalidArgument => "invalid-argument",
            PlatformError::UnknownError => "unknown-error",
        }
    }

    /// The human readable message of this error.
    pub fn message(&self) -> (r: &'static str)
        ensures
            r@ == error_message(*self),
    {
        proof {
            reveal_strlit("Not implemented on this platform");
            reveal_strlit("Window not found");
            reveal_strlit("Menu not found");
            reveal_strlit("Action requires prior mouse event and the event was not found.");
            reveal_strlit("Failed to launch engine");
            reveal_strlit("Failed to send message on channel");
            reveal_strlit("Platform error");
            reveal_strlit("Invalid argument");
            reveal_strlit("Unknown Error");
        }
        match self {
            PlatformError::NotImplemented => "Not implemented on this platform",
            PlatformError::NoWindow => "Window not found",
            PlatformError::NoMenu => "Menu not found",
            PlatformError::NoEventFound => "Action requires prior mouse event and the event was not found.",
            PlatformError::LaunchEngineFailure => "Failed to launch engine",
            PlatformError::SendMessageFailure { .. } => "Failed to send message on channel",
            PlatformError::HResult(_) => "Platform error",
            PlatformError::InvalidArgument => "Invalid argument",
            PlatformError::UnknownError => "Unknown Error",
        }
    }

    /// The error reply that carries this error to the calling engine; the
    /// channel of a failed send is given as details.
    pub fn to_call_error(&self) -> (r: MethodCallError)
        ensures
            r.code@ == error_code(*self),
            r.message@ == error_message(*self),
            (match *self {
                PlatformError::SendMessageFailure { channel } => r.details.is_some()
                    && r.details.unwrap()@ == channel@,
                _ => r.details.is_none(),
            }),
    {
        let details = match self {
            PlatformError::SendMessageFailure { channel } => Some(channel.clone()),
            _ => None,
        };
        MethodCallError {
            code: self.code().to_owned(),
            message: self.message().to_owned(),
            details,
        }
    }
}

} // verus!
