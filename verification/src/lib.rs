//! Livox-SDK2 support: decoding of the SDK's point cloud, IMU and command packets,
//! and the bookkeeping around the SDK handle, its callbacks and device commands.
//!
//! Decoders take the packet bytes the SDK delivers and return owned values.
//! Calls into the SDK itself are made by the caller; the functions here decide
//! what the SDK is asked to do and what its answers mean.

pub mod cmd;
pub mod command;
pub mod error;
pub mod imu;
pub mod info;
pub mod pointcloud;
pub mod sdk;
pub mod sys;
pub mod text;
pub mod wire;

pub use crate::command::{
    default_cmd_timeout, AsyncControlResult, CommandRequest, LogType, SdkCommand,
};
pub use crate::error::{CallbackError, CommandError, InitError, StartError, Status, StopError};
pub use crate::info::{c_char_array_to_string, InfoChange, InfoMessage};
pub use crate::sdk::{
    CallbackSlot, CmdObserverGuard, ImuCallbackGuard, InfoCallbackGuard, InfoChangeCallbackGuard,
    InitStep, PointCloudCallbackGuard, Sdk, SdkRefCount,
};
