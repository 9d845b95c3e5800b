//! SDK status codes and the crate's error types, with their display texts.

use vstd::prelude::*;
use vstd::std_specs::convert::{FromSpec, FromSpecImpl};
use vstd::string::StringExecFns;
use std::time::Duration;
use crate::sys::{livox_status, status_code, LivoxLidarStatus};
use crate::text::{decimal, hex4, push_decimal, push_hex4, push_signed_decimal, signed_decimal};

verus! {

/// A raw Livox-SDK2 status code (`livox_status`).
#[derive(Debug, Clone, Copy, PartialEq, Eq, Structural)]
pub struct Status(pub livox_status);

/// The SDK's name for status code `c`, or `(unknown)`.
pub open spec fn status_name(c: i32) -> Seq<char> {
    if c == 0 {
        "kLivoxLidarStatusSuccess"@
    } else if c == -1 {
        "kLivoxLidarStatusFailure"@
    } else if c == -2 {
        "kLivoxLidarStatusNotConnected"@
    } else if c == -3 {
        "kLivoxLidarStatusNotSupported"@
    } else if c == -4 {
        "kLivoxLidarStatusTimeout"@
    } else if c == -5 {
        "kLivoxLidarStatusNotEnoughMemory"@
    } else if c == -6 {
        "kLivoxLidarStatusChannelNotExist"@
    } else if c == -7 {
        "kLivoxLidarStatusInvalidHandle"@
    } else if c == -8 {
        "kLivoxLidarStatusHandlerImplNotExist"@
    } else if c == -9 {
        "kLivoxLidarStatusSendFailed"@
    } else {
        "(unknown)"@
    }
}

/// Display text of status code `c`: its name, then the code in parentheses.
pub open spec fn status_text(c: i32) -> Seq<char> {
    status_name(c) + " ("@ + signed_decimal(c as int) + ")"@
}

/// Every SDK status is named after its own enumerator: the name of a status's code
/// is `kLivoxLidarStatus` followed by that status's name, and any other code is
/// `(unknown)`.
pub proof fn lemma_status_names_follow_the_enum(s: LivoxLidarStatus, c: i32)
    ensures
        status_name(status_code(s) as i32) == match s {
            LivoxLidarStatus::SendFailed => "kLivoxLidarStatusSendFailed"@,
            LivoxLidarStatus::HandlerImplNotExist => "kLivoxLidarStatusHandlerImplNotExist"@,
            LivoxLidarStatus::InvalidHandle => "kLivoxLidarStatusInvalidHandle"@,
            LivoxLidarStatus::ChannelNotExist => "kLivoxLidarStatusChannelNotExist"@,
            LivoxLidarStatus::NotEnoughMemory => "kLivoxLidarStatusNotEnoughMemory"@,
            LivoxLidarStatus::Timeout => "kLivoxLidarStatusTimeout"@,
            LivoxLidarStatus::NotSupported => "kLivoxLidarStatusNotSupported"@,
            LivoxLidarStatus::NotConnected => "kLivoxLidarStatusNotConnected"@,
            LivoxLidarStatus::Failure => "kLivoxLidarStatusFailure"@,
            LivoxLidarStatus::Success => "kLivoxLidarStatusSuccess"@,
        },
        (c < -9 || c > 0) ==> status_name(c) == "(unknown)"@,
{
}

impl Status {
    pub fn code(self) -> (r: i32)
        ensures
            r == self.0,
    {
        self.0
    }

    pub fn is_success(self) -> (r: bool)
        ensures
            r == (self.0 == 0),
    {
        self.0 == LivoxLidarStatus::Success.code()
    }

    /// The SDK's name for this status, or `(unknown)`.
    pub fn name(self) -> (r: &'static str)
        ensures
            r@ == status_name(self.0),
    {
        match self.0 {
            0 => "kLivoxLidarStatusSuccess",
            -1 => "kLivoxLidarStatusFailure",
            -2 => "kLivoxLidarStatusNotConnected",
            -3 => "kLivoxLidarStatusNotSupported",
            -4 => "kLivoxLidarStatusTimeout",
            -5 => "kLivoxLidarStatusNotEnoughMemory",
            -6 => "kLivoxLidarStatusChannelNotExist",
            -7 => "kLivoxLidarStatusInvalidHandle",
            -8 => "kLivoxLidarStatusHandlerImplNotExist",
            -9 => "kLivoxLidarStatusSendFailed",
            _ => "(unknown)",
        }
    }

    /// Display text: the status name and the code, as in `kLivoxLidarStatusTimeout (-4)`.
    pub fn to_string(&self) -> (r: String)
        ensures
            r@ == status_text(self.0),
    {
        let mut s = String::from_str(self.name());
        s.append(" (");
        push_signed_decimal(&mut s, self.0);
        s.append(")");
        s
    }
}

impl From<livox_status> for Status {
    fn from(v: livox_status) -> (r: Self) {
        Status(v)
    }
}

impl FromSpecImpl<livox_status> for Status {
    open spec fn obeys_from_spec() -> bool {
        true
    }

    open spec fn from_spec(v: livox_status) -> Self {
        Status(v)
    }
}

/// Wrapping a raw code and reading it back gives the same code.
pub proof fn lemma_status_code_roundtrip(v: livox_status)
    ensures
        <Status as FromSpec<livox_status>>::from_spec(v).0 == v,
{
}

/// Text that `{:?}` renders for the duration `d`.
pub uninterp spec fn duration_debug_text(d: Duration) -> Seq<char>;

/// Renders `d` with `<Duration as Debug>::fmt` (as `format!("{:?}", d)` does);
/// the text is named, not stated.
#[verifier::external_body]
fn duration_debug(d: Duration) -> (s: String)
    ensures
        s@ == duration_debug_text(d),
{
    format!("{:?}", d)
}

/// Errors returned by blocking command helpers.
#[derive(Debug)]
pub enum CommandError {
    /// The SDK returned a non-success status immediately (e.g. send failed).
    SubmitFailed(Status),
    /// The async callback returned a non-success status.
    CommandFailed(Status),
    /// The device returned a non-zero `ret_code`.
    DeviceRejected { ret_code: u8, error_key: Option<u16> },
    /// Invalid argument passed to a wrapper method.
    InvalidArgument(&'static str),
    /// Timed out waiting for the async callback.
    Timeout(Duration),
}

/// Display text of a command error.
pub open spec fn command_error_text(e: CommandError) -> Seq<char> {
    match e {
        CommandError::SubmitFailed(s) => "command submit failed: "@ + status_text(s.0),
        CommandError::CommandFailed(s) => "command failed: "@ + status_text(s.0),
        CommandError::DeviceRejected { ret_code, error_key } => "device rejected command: ret_code="@
            + decimal(ret_code as nat) + match error_key {
            Some(k) => ", error_key=0x"@ + hex4(k),
            None => Seq::<char>::empty(),
        },
        CommandError::InvalidArgument(msg) => "invalid argument: "@ + msg@,
        CommandError::Timeout(d) => "timed out waiting for callback after "@ + duration_debug_text(
            d,
        ),
    }
}

impl CommandError {
    /// Display text, as in `device rejected command: ret_code=3, error_key=0x00ab`.
    pub fn to_string(&self) -> (r: String)
        ensures
            r@ == command_error_text(*self),
    {
        match self {
            CommandError::SubmitFailed(s) => {
                let mut out = String::from_str("command submit failed: ");
                out.append(s.to_string().as_str());
                out
            },
            CommandError::CommandFailed(s) => {
                let mut out = String::from_str("command failed: ");
                out.append(s.to_string().as_str());
                out
            },
            CommandError::DeviceRejected { ret_code, error_key } => {
                let mut out = String::from_str("device rejected command: ret_code=");
                push_decimal(&mut out, *ret_code as u32);
                match error_key {
                    Some(k) => {
                        out.append(", error_key=0x");
                        push_hex4(&mut out, *k);
                    },
                    None => {},
                }
                out
            },
            CommandError::InvalidArgument(msg) => {
                let mut out = String::from_str("invalid argument: ");
                out.append(msg);
                out
            },
            CommandError::Timeout(d) => {
                let mut out = String::from_str("timed out waiting for callback after ");
                out.append(duration_debug(*d).as_str());
                out
            },
        }
    }
}

/// Errors that can occur during SDK initialization.
#[derive(Debug, Clone, Copy, PartialEq, Eq, Structural)]
pub enum InitError {
    InitFailed,
}

impl InitError {
    /// Display text.
    pub fn to_string(&self) -> (r: String)
        ensures
            r@ == "LivoxLidarSdkInit failed"@,
    {
        String::from_str("LivoxLidarSdkInit failed")
    }
}

/// Errors that can occur during SDK start.
#[derive(Debug, Clone, Copy, PartialEq, Eq, Structural)]
pub enum StartError {
    StartFailed,
}

impl StartError {
    /// Display text.
    pub fn to_string(&self) -> (r: String)
        ensures
            r@ == "LivoxLidarSdkStart failed"@,
    {
        String::from_str("LivoxLidarSdkStart failed")
    }
}

/// Errors that can occur during SDK stop.
#[derive(Debug, Clone, Copy, PartialEq, Eq, Structural)]
pub enum StopError {
    StopFailed,
}

impl StopError {
    /// Display text.
    pub fn to_string(&self) -> (r: String)
        ensures
            r@ == "SDK stop failed"@,
    {
        String::from_str("SDK stop failed")
    }
}

/// Errors that can occur when installing a callback.
#[derive(Debug, Clone, Copy, PartialEq, Eq, Structural)]
pub enum CallbackError {
    AlreadyInstalled,
}

impl CallbackError {
    /// Display text.
    pub fn to_string(&self) -> (r: String)
        ensures
            r@ == "point cloud callback already installed"@,
    {
        String::from_str("point cloud callback already installed")
    }
}

} // verus!
