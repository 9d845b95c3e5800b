//! Device commands: the requests handed to the SDK and the decisions on their outcome.
//!
//! A command runs in three steps. `Sdk::<command>` builds a `CommandRequest`; the
//! caller submits it to the SDK and passes the returned status to
//! `CommandRequest::on_submit`; when that succeeds the caller waits up to
//! `timeout` for the SDK's reply and passes it (or `None` on timeout) to
//! `CommandRequest::on_reply`.

use vstd::prelude::*;
use vstd::slice::slice_to_vec;
use vstd::string::StringSliceAdditionalSpecFns;
use std::time::Duration;
use crate::error::{CommandError, Status};
use crate::sdk::Sdk;
use crate::sys::{
    livox_status, FuncIOCfg, LivoxLidarAsyncControlResponse, LivoxLidarDetectMode,
    LivoxLidarLoggerResponse, LivoxLidarPointDataType, LivoxLidarRebootResponse,
    LivoxLidarResetResponse, LivoxLidarRmcSyncTimeResponse, LivoxLidarScanPattern,
    LivoxLidarWorkMode, LivoxLidarWorkModeAfterBoot,
};

verus! {

/// The duration of `secs` whole seconds (as `Duration::from_secs` builds it).
pub uninterp spec fn duration_from_secs(secs: u64) -> Duration;

/// `Duration::from_secs` is taken to return the duration named by `duration_from_secs`.
pub assume_specification[ Duration::from_secs ](secs: u64) -> (d: Duration)
    ensures
        d == duration_from_secs(secs),
;

/// How long a command waits for the SDK's reply unless told otherwise: two seconds.
pub fn default_cmd_timeout() -> (d: Duration)
    ensures
        d == duration_from_secs(2),
{
    Duration::from_secs(2)
}

/// Logger type.
#[derive(Debug, Clone, Copy, PartialEq, Eq, Structural)]
pub enum LogType {
    RealTime,
    Exception,
}

impl LogType {
    /// The SDK's numeric value for this logger type.
    pub fn code(self) -> (r: i32)
        ensures
            r == (match self {
                LogType::RealTime => 0i32,
                LogType::Exception => 1,
            }),
    {
        match self {
            LogType::RealTime => 0,
            LogType::Exception => 1,
        }
    }
}

/// The SDK call a command stands for, with its arguments.
#[derive(Debug, Clone)]
pub enum SdkCommand {
    SetPclDataType(LivoxLidarPointDataType),
    SetScanPattern(LivoxLidarScanPattern),
    SetDualEmit(bool),
    EnablePointSend,
    DisablePointSend,
    EnableImuData,
    DisableImuData,
    EnableFov(u8),
    DisableFov,
    SetDetectMode(LivoxLidarDetectMode),
    SetFuncIOCfg(FuncIOCfg),
    SetBlindSpot(u32),
    SetWorkMode(LivoxLidarWorkMode),
    EnableGlassHeat,
    DisableGlassHeat,
    StartForcedHeating,
    StopForcedHeating,
    SetWorkModeAfterBoot(LivoxLidarWorkModeAfterBoot),
    RequestReset,
    RequestReboot,
    StartLogger(LogType),
    StopLogger(LogType),
    /// `rmc` holds the sentence's bytes (no NUL); `rmc_length` is their number.
    SetRmcSyncTime { rmc: Vec<u8>, rmc_length: u16 },
}

/// A command for device `handle`, to be submitted to the SDK and waited on for `timeout`.
#[derive(Debug)]
pub struct CommandRequest {
    pub handle: u32,
    pub command: SdkCommand,
    pub timeout: Duration,
}

/// What the SDK's asynchronous reply to a command carried.
#[derive(Debug, Clone, Copy, PartialEq, Eq, Structural)]
pub struct AsyncControlResult {
    pub status: Status,
    pub ret_code: Option<u8>,
    pub error_key: Option<u16>,
}

impl AsyncControlResult {
    /// The result of an asynchronous control reply; `response` is `None` when the
    /// SDK passed no response record.
    pub fn from_async_control(
        status: livox_status,
        response: Option<LivoxLidarAsyncControlResponse>,
    ) -> (r: AsyncControlResult)
        ensures
            r.status == Status(status),
            r.ret_code == (match response {
                Some(resp) => Some(resp.ret_code),
                None => None::<u8>,
            }),
            r.error_key == (match response {
                Some(resp) => Some(resp.error_key),
                None => None::<u16>,
            }),
    {
        match response {
            Some(resp) => AsyncControlResult {
                status: Status(status),
                ret_code: Some(resp.ret_code),
                error_key: Some(resp.error_key),
            },
            None => AsyncControlResult { status: Status(status), ret_code: None, error_key: None },
        }
    }

    /// The result of a reset reply.
    pub fn from_reset(status: livox_status, response: Option<LivoxLidarResetResponse>) -> (r:
        AsyncControlResult)
        ensures
            r.status == Status(status),
            r.ret_code == (match response {
                Some(resp) => Some(resp.ret_code),
                None => None::<u8>,
            }),
            r.error_key is None,
    {
        let ret_code = match response {
            Some(resp) => Some(resp.ret_code),
            None => None,
        };
        AsyncControlResult { status: Status(status), ret_code, error_key: None }
    }

    /// The result of a reboot reply.
    pub fn from_reboot(status: livox_status, response: Option<LivoxLidarRebootResponse>) -> (r:
        AsyncControlResult)
        ensures
            r.status == Status(status),
            r.ret_code == (match response {
                Some(resp) => Some(resp.ret_code),
                None => None::<u8>,
            }),
            r.error_key is None,
    {
        let ret_code = match response {
            Some(resp) => Some(resp.ret_code),
            None => None,
        };
        AsyncControlResult { status: Status(status), ret_code, error_key: None }
    }

    /// The result of a logger start/stop reply.
    pub fn from_logger(status: livox_status, response: Option<LivoxLidarLoggerResponse>) -> (r:
        AsyncControlResult)
        ensures
            r.status == Status(status),
            r.ret_code == (match response {
                Some(resp) => Some(resp.ret_code),
                None => None::<u8>,
            }),
            r.error_key is None,
    {
        let ret_code = match response {
            Some(resp) => Some(resp.ret_code),
            None => None,
        };
        AsyncControlResult { status: Status(status), ret_code, error_key: None }
    }

    /// The result of an RMC time synchronisation reply.
    pub fn from_rmc_sync_time(
        status: livox_status,
        response: Option<LivoxLidarRmcSyncTimeResponse>,
    ) -> (r: AsyncControlResult)
        ensures
            r.status == Status(status),
            r.ret_code == (match response {
                Some(resp) => Some(resp.ret),
                None => None::<u8>,
            }),
            r.error_key is None,
    {
        let ret_code = match response {
            Some(resp) => Some(resp.ret),
            None => None,
        };
        AsyncControlResult { status: Status(status), ret_code, error_key: None }
    }
}

/// The verdict on a command's reply: the callback's status must be success and the
/// device's return code, when present, zero.
pub open spec fn reply_verdict(result: AsyncControlResult) -> Result<(), CommandError> {
    if result.status.0 != 0 {
        Err(CommandError::CommandFailed(result.status))
    } else if result.ret_code is Some && result.ret_code->0 != 0 {
        Err(CommandError::DeviceRejected { ret_code: result.ret_code->0, error_key: result.error_key })
    } else {
        Ok(())
    }
}

/// The outcome of submitting a command, given the status the SDK call returned.
pub open spec fn submit_outcome(st: livox_status) -> Result<(), CommandError> {
    if st == 0 {
        Ok(())
    } else {
        Err(CommandError::SubmitFailed(Status(st)))
    }
}

/// The outcome of waiting `timeout` for a reply: `None` means none arrived in time.
pub open spec fn reply_outcome(timeout: Duration, reply: Option<AsyncControlResult>) -> Result<
    (),
    CommandError,
> {
    match reply {
        None => Err(CommandError::Timeout(timeout)),
        Some(result) => reply_verdict(result),
    }
}

/// A command succeeds exactly when the SDK accepted it, a reply arrived in time,
/// the reply's status is success, and the device's return code is absent or zero.
pub proof fn lemma_command_success(st: livox_status, timeout: Duration, reply: Option<AsyncControlResult>)
    ensures
        (submit_outcome(st) is Ok && reply_outcome(timeout, reply) is Ok) <==> (st == 0
            && reply is Some && reply->0.status.0 == 0 && (reply->0.ret_code is None
            || reply->0.ret_code->0 == 0)),
{
}

/// The sentence is refused only for a NUL byte or a length beyond 65535 bytes;
/// any other sentence is accepted, and the request carries exactly its bytes, their
/// number, the handle and the timeout. Refusals name their reason.
pub proof fn lemma_rmc_refused_only_for_nul_or_length(
    handle: u32,
    bytes: Seq<u8>,
    timeout: Duration,
    r: Result<CommandRequest, CommandError>,
)
    requires
        rmc_request(handle, bytes, timeout, r),
    ensures
        (forall|i: int| 0 <= i < bytes.len() ==> bytes[i] != 0) && bytes.len() <= 65535 ==> {
            &&& r is Ok
            &&& r->Ok_0.handle == handle
            &&& r->Ok_0.timeout == timeout
            &&& r->Ok_0.command matches SdkCommand::SetRmcSyncTime { rmc, rmc_length } && rmc@
                == bytes && rmc_length as int == bytes.len()
        },
        r is Err ==> (exists|i: int| 0 <= i < bytes.len() && bytes[i] == 0) || bytes.len() > 65535,
        (exists|i: int| 0 <= i < bytes.len() && bytes[i] == 0) ==> (r matches Err(
            CommandError::InvalidArgument(msg),
        ) && msg@ == "rmc contains NUL byte"@),
{
    if bytes.contains(0 as u8) {
        let i = choose|i: int| 0 <= i < bytes.len() && bytes[i] == 0u8;
        assert(bytes[i] == 0);
    }
    if exists|i: int| 0 <= i < bytes.len() && bytes[i] == 0 {
        let i = choose|i: int| 0 <= i < bytes.len() && bytes[i] == 0;
        assert(bytes.contains(0u8)) by {
            assert(bytes[i] == 0u8);
        }
    }
}

/// A command whose reply does not come in time fails with the timeout it waited,
/// whatever that timeout was.
pub proof fn lemma_missing_reply_reports_its_timeout(timeout: Duration, other: Duration)
    ensures
        reply_outcome(timeout, None) matches Err(CommandError::Timeout(t)) && t == timeout,
        timeout != other ==> reply_outcome(timeout, None) != reply_outcome(other, None),
{
}

/// The verdict on a reply: a failed status is reported with that status; with a
/// success status, a non-zero device return code is reported with that code and
/// the reply's error key; otherwise the command succeeded.
pub proof fn lemma_reply_verdict_reports_the_reply(result: AsyncControlResult, timeout: Duration)
    ensures
        result.status.0 != 0 ==> reply_verdict(result) == Err::<(), CommandError>(
            CommandError::CommandFailed(result.status),
        ),
        result.status.0 == 0 && result.ret_code is Some && result.ret_code->0 != 0
            ==> reply_verdict(result) == Err::<(), CommandError>(
            CommandError::DeviceRejected {
                ret_code: result.ret_code->0,
                error_key: result.error_key,
            },
        ),
        reply_verdict(result) is Ok <==> result.status.0 == 0 && (result.ret_code is None
            || result.ret_code == Some(0u8)),
        reply_outcome(timeout, Some(result)) == reply_verdict(result),
{
}

/// A submission fails exactly on a non-success status, which it reports.
pub proof fn lemma_submit_reports_status(st: livox_status)
    ensures
        submit_outcome(st) is Ok <==> st == 0,
        st != 0 ==> submit_outcome(st) == Err::<(), CommandError>(
            CommandError::SubmitFailed(Status(st)),
        ),
{
}

impl CommandRequest {
    /// Decides on the status the SDK call returned when the request was submitted:
    /// any non-success status fails the command at once.
    pub fn on_submit(&self, st: livox_status) -> (r: Result<(), CommandError>)
        ensures
            r == submit_outcome(st),
    {
        if st != 0 {
            return Err(CommandError::SubmitFailed(Status(st)));
        }
        Ok(())
    }

    /// Decides on the reply received within `self.timeout`, or `None` if none came.
    pub fn on_reply(&self, reply: Option<AsyncControlResult>) -> (r: Result<(), CommandError>)
        ensures
            r == reply_outcome(self.timeout, reply),
    {
        match reply {
            None => Err(CommandError::Timeout(self.timeout)),
            Some(result) => Sdk::ensure_ok(result),
        }
    }
}

impl Sdk {
    /// Turns a command's reply into its outcome.
    pub fn ensure_ok(result: AsyncControlResult) -> (r: Result<(), CommandError>)
        ensures
            r == reply_verdict(result),
    {
        if !result.status.is_success() {
            return Err(CommandError::CommandFailed(result.status));
        }
        if let Some(rc) = result.ret_code {
            if rc != 0 {
                return Err(CommandError::DeviceRejected { ret_code: rc, error_key: result.error_key });
            }
        }
        Ok(())
    }

    /// Set point cloud data type. Returns the request to hand to the SDK, waited on for the default
    /// command timeout.
    pub fn set_pcl_data_type(&self, handle: u32, data_type: LivoxLidarPointDataType) -> (r: CommandRequest)
        ensures
            r.handle == handle,
            r.command == SdkCommand::SetPclDataType(data_type),
            r.timeout == duration_from_secs(2),
    {
        self.set_pcl_data_type_with_timeout(handle, data_type, default_cmd_timeout())
    }

    /// Set point cloud data type. Returns the request to hand to the SDK, waited on for `timeout`.
    pub fn set_pcl_data_type_with_timeout(&self, handle: u32, data_type: LivoxLidarPointDataType, timeout: Duration) -> (r: CommandRequest)
        ensures
            r.handle == handle,
            r.command == SdkCommand::SetPclDataType(data_type),
            r.timeout == timeout,
    {
        CommandRequest { handle, command: SdkCommand::SetPclDataType(data_type), timeout }
    }

    /// Set scan pattern. Returns the request to hand to the SDK, waited on for the default
    /// command timeout.
    pub fn set_scan_pattern(&self, handle: u32, scan_pattern: LivoxLidarScanPattern) -> (r: CommandRequest)
        ensures
            r.handle == handle,
            r.command == SdkCommand::SetScanPattern(scan_pattern),
            r.timeout == duration_from_secs(2),
    {
        self.set_scan_pattern_with_timeout(handle, scan_pattern, default_cmd_timeout())
    }

    /// Set scan pattern. Returns the request to hand to the SDK, waited on for `timeout`.
    pub fn set_scan_pattern_with_timeout(&self, handle: u32, scan_pattern: LivoxLidarScanPattern, timeout: Duration) -> (r: CommandRequest)
        ensures
            r.handle == handle,
            r.command == SdkCommand::SetScanPattern(scan_pattern),
            r.timeout == timeout,
    {
        CommandRequest { handle, command: SdkCommand::SetScanPattern(scan_pattern), timeout }
    }

    /// Enable/disable dual emit. Returns the request to hand to the SDK, waited on for the default
    /// command timeout.
    pub fn set_dual_emit(&self, handle: u32, enable: bool) -> (r: CommandRequest)
        ensures
            r.handle == handle,
            r.command == SdkCommand::SetDualEmit(enable),
            r.timeout == duration_from_secs(2),
    {
        self.set_dual_emit_with_timeout(handle, enable, default_cmd_timeout())
    }

    /// Enable/disable dual emit. Returns the request to hand to the SDK, waited on for `timeout`.
    pub fn set_dual_emit_with_timeout(&self, handle: u32, enable: bool, timeout: Duration) -> (r: CommandRequest)
        ensures
            r.handle == handle,
            r.command == SdkCommand::SetDualEmit(enable),
            r.timeout == timeout,
    {
        CommandRequest { handle, command: SdkCommand::SetDualEmit(enable), timeout }
    }

    /// Enable point sending. Returns the request to hand to the SDK, waited on for the default
    /// command timeout.
    pub fn enable_point_send(&self, handle: u32) -> (r: CommandRequest)
        ensures
            r.handle == handle,
            r.command == SdkCommand::EnablePointSend,
            r.timeout == duration_from_secs(2),
    {
        self.enable_point_send_with_timeout(handle, default_cmd_timeout())
    }

    /// Enable point sending. Returns the request to hand to the SDK, waited on for `timeout`.
    pub fn enable_point_send_with_timeout(&self, handle: u32, timeout: Duration) -> (r: CommandRequest)
        ensures
            r.handle == handle,
            r.command == SdkCommand::EnablePointSend,
            r.timeout == timeout,
    {
        CommandRequest { handle, command: SdkCommand::EnablePointSend, timeout }
    }

    /// Disable point sending. Returns the request to hand to the SDK, waited on for the default
    /// command timeout.
    pub fn disable_point_send(&self, handle: u32) -> (r: CommandRequest)
        ensures
            r.handle == handle,
            r.command == SdkCommand::DisablePointSend,
            r.timeout == duration_from_secs(2),
    {
        self.disable_point_send_with_timeout(handle, default_cmd_timeout())
    }

    /// Disable point sending. Returns the request to hand to the SDK, waited on for `timeout`.
    pub fn disable_point_send_with_timeout(&self, handle: u32, timeout: Duration) -> (r: CommandRequest)
        ensures
            r.handle == handle,
            r.command == SdkCommand::DisablePointSend,
            r.timeout == timeout,
    {
        CommandRequest { handle, command: SdkCommand::DisablePointSend, timeout }
    }

    /// Enable IMU data (device-side). Returns the request to hand to the SDK, waited on for the default
    /// command timeout.
    pub fn enable_imu_data(&self, handle: u32) -> (r: CommandRequest)
        ensures
            r.handle == handle,
            r.command == SdkCommand::EnableImuData,
            r.timeout == duration_from_secs(2),
    {
        self.enable_imu_data_with_timeout(handle, default_cmd_timeout())
    }

    /// Enable IMU data (device-side). Returns the request to hand to the SDK, waited on for `timeout`.
    pub fn enable_imu_data_with_timeout(&self, handle: u32, timeout: Duration) -> (r: CommandRequest)
        ensures
            r.handle == handle,
            r.command == SdkCommand::EnableImuData,
            r.timeout == timeout,
    {
        CommandRequest { handle, command: SdkCommand::EnableImuData, timeout }
    }

    /// Disable IMU data (device-side). Returns the request to hand to the SDK, waited on for the default
    /// command timeout.
    pub fn disable_imu_data(&self, handle: u32) -> (r: CommandRequest)
        ensures
            r.handle == handle,
            r.command == SdkCommand::DisableImuData,
            r.timeout == duration_from_secs(2),
    {
        self.disable_imu_data_with_timeout(handle, default_cmd_timeout())
    }

    /// Disable IMU data (device-side). Returns the request to hand to the SDK, waited on for `timeout`.
    pub fn disable_imu_data_with_timeout(&self, handle: u32, timeout: Duration) -> (r: CommandRequest)
        ensures
            r.handle == handle,
            r.command == SdkCommand::DisableImuData,
            r.timeout == timeout,
    {
        CommandRequest { handle, command: SdkCommand::DisableImuData, timeout }
    }

    /// Enable LiDAR FOV (with flag). Returns the request to hand to the SDK, waited on for the default
    /// command timeout.
    pub fn enable_fov(&self, handle: u32, fov_en: u8) -> (r: CommandRequest)
        ensures
            r.handle == handle,
            r.command == SdkCommand::EnableFov(fov_en),
            r.timeout == duration_from_secs(2),
    {
        self.enable_fov_with_timeout(handle, fov_en, default_cmd_timeout())
    }

    /// Enable LiDAR FOV (with flag). Returns the request to hand to the SDK, waited on for `timeout`.
    pub fn enable_fov_with_timeout(&self, handle: u32, fov_en: u8, timeout: Duration) -> (r: CommandRequest)
        ensures
            r.handle == handle,
            r.command == SdkCommand::EnableFov(fov_en),
            r.timeout == timeout,
    {
        CommandRequest { handle, command: SdkCommand::EnableFov(fov_en), timeout }
    }

    /// Disable LiDAR FOV. Returns the request to hand to the SDK, waited on for the default
    /// command timeout.
    pub fn disable_fov(&self, handle: u32) -> (r: CommandRequest)
        ensures
            r.handle == handle,
            r.command == SdkCommand::DisableFov,
            r.timeout == duration_from_secs(2),
    {
        self.disable_fov_with_timeout(handle, default_cmd_timeout())
    }

    /// Disable LiDAR FOV. Returns the request to hand to the SDK, waited on for `timeout`.
    pub fn disable_fov_with_timeout(&self, handle: u32, timeout: Duration) -> (r: CommandRequest)
        ensures
            r.handle == handle,
            r.command == SdkCommand::DisableFov,
            r.timeout == timeout,
    {
        CommandRequest { handle, command: SdkCommand::DisableFov, timeout }
    }

    /// Set detect mode. Returns the request to hand to the SDK, waited on for the default
    /// command timeout.
    pub fn set_detect_mode(&self, handle: u32, mode: LivoxLidarDetectMode) -> (r: CommandRequest)
        ensures
            r.handle == handle,
            r.command == SdkCommand::SetDetectMode(mode),
            r.timeout == duration_from_secs(2),
    {
        self.set_detect_mode_with_timeout(handle, mode, default_cmd_timeout())
    }

    /// Set detect mode. Returns the request to hand to the SDK, waited on for `timeout`.
    pub fn set_detect_mode_with_timeout(&self, handle: u32, mode: LivoxLidarDetectMode, timeout: Duration) -> (r: CommandRequest)
        ensures
            r.handle == handle,
            r.command == SdkCommand::SetDetectMode(mode),
            r.timeout == timeout,
    {
        CommandRequest { handle, command: SdkCommand::SetDetectMode(mode), timeout }
    }

    /// Set functional IO configuration. Returns the request to hand to the SDK, waited on for the default
    /// command timeout.
    pub fn set_func_io_cfg(&self, handle: u32, cfg: FuncIOCfg) -> (r: CommandRequest)
        ensures
            r.handle == handle,
            r.command == SdkCommand::SetFuncIOCfg(cfg),
            r.timeout == duration_from_secs(2),
    {
        self.set_func_io_cfg_with_timeout(handle, cfg, default_cmd_timeout())
    }

    /// Set functional IO configuration. Returns the request to hand to the SDK, waited on for `timeout`.
    pub fn set_func_io_cfg_with_timeout(&self, handle: u32, cfg: FuncIOCfg, timeout: Duration) -> (r: CommandRequest)
        ensures
            r.handle == handle,
            r.command == SdkCommand::SetFuncIOCfg(cfg),
            r.timeout == timeout,
    {
        CommandRequest { handle, command: SdkCommand::SetFuncIOCfg(cfg), timeout }
    }

    /// Set blind spot. Returns the request to hand to the SDK, waited on for the default
    /// command timeout.
    pub fn set_blind_spot(&self, handle: u32, blind_spot: u32) -> (r: CommandRequest)
        ensures
            r.handle == handle,
            r.command == SdkCommand::SetBlindSpot(blind_spot),
            r.timeout == duration_from_secs(2),
    {
        self.set_blind_spot_with_timeout(handle, blind_spot, default_cmd_timeout())
    }

    /// Set blind spot. Returns the request to hand to the SDK, waited on for `timeout`.
    pub fn set_blind_spot_with_timeout(&self, handle: u32, blind_spot: u32, timeout: Duration) -> (r: CommandRequest)
        ensures
            r.handle == handle,
            r.command == SdkCommand::SetBlindSpot(blind_spot),
            r.timeout == timeout,
    {
        CommandRequest { handle, command: SdkCommand::SetBlindSpot(blind_spot), timeout }
    }

    /// Set device work mode. Returns the request to hand to the SDK, waited on for the default
    /// command timeout.
    pub fn set_work_mode(&self, handle: u32, work_mode: LivoxLidarWorkMode) -> (r: CommandRequest)
        ensures
            r.handle == handle,
            r.command == SdkCommand::SetWorkMode(work_mode),
            r.timeout == duration_from_secs(2),
    {
        self.set_work_mode_with_timeout(handle, work_mode, default_cmd_timeout())
    }

    /// Set device work mode. Returns the request to hand to the SDK, waited on for `timeout`.
    pub fn set_work_mode_with_timeout(&self, handle: u32, work_mode: LivoxLidarWorkMode, timeout: Duration) -> (r: CommandRequest)
        ensures
            r.handle == handle,
            r.command == SdkCommand::SetWorkMode(work_mode),
            r.timeout == timeout,
    {
        CommandRequest { handle, command: SdkCommand::SetWorkMode(work_mode), timeout }
    }

    /// Enable glass heating. Returns the request to hand to the SDK, waited on for the default
    /// command timeout.
    pub fn enable_glass_heat(&self, handle: u32) -> (r: CommandRequest)
        ensures
            r.handle == handle,
            r.command == SdkCommand::EnableGlassHeat,
            r.timeout == duration_from_secs(2),
    {
        self.enable_glass_heat_with_timeout(handle, default_cmd_timeout())
    }

    /// Enable glass heating. Returns the request to hand to the SDK, waited on for `timeout`.
    pub fn enable_glass_heat_with_timeout(&self, handle: u32, timeout: Duration) -> (r: CommandRequest)
        ensures
            r.handle == handle,
            r.command == SdkCommand::EnableGlassHeat,
            r.timeout == timeout,
    {
        CommandRequest { handle, command: SdkCommand::EnableGlassHeat, timeout }
    }

    /// Disable glass heating. Returns the request to hand to the SDK, waited on for the default
    /// command timeout.
    pub fn disable_glass_heat(&self, handle: u32) -> (r: CommandRequest)
        ensures
            r.handle == handle,
            r.command == SdkCommand::DisableGlassHeat,
            r.timeout == duration_from_secs(2),
    {
        self.disable_glass_heat_with_timeout(handle, default_cmd_timeout())
    }

    /// Disable glass heating. Returns the request to hand to the SDK, waited on for `timeout`.
    pub fn disable_glass_heat_with_timeout(&self, handle: u32, timeout: Duration) -> (r: CommandRequest)
        ensures
            r.handle == handle,
            r.command == SdkCommand::DisableGlassHeat,
            r.timeout == timeout,
    {
        CommandRequest { handle, command: SdkCommand::DisableGlassHeat, timeout }
    }

    /// Start forced heating (not supported on all devices). Returns the request to hand to the SDK, waited on for the default
    /// command timeout.
    pub fn start_forced_heating(&self, handle: u32) -> (r: CommandRequest)
        ensures
            r.handle == handle,
            r.command == SdkCommand::StartForcedHeating,
            r.timeout == duration_from_secs(2),
    {
        self.start_forced_heating_with_timeout(handle, default_cmd_timeout())
    }

    /// Start forced heating (not supported on all devices). Returns the request to hand to the SDK, waited on for `timeout`.
    pub fn start_forced_heating_with_timeout(&self, handle: u32, timeout: Duration) -> (r: CommandRequest)
        ensures
            r.handle == handle,
            r.command == SdkCommand::StartForcedHeating,
            r.timeout == timeout,
    {
        CommandRequest { handle, command: SdkCommand::StartForcedHeating, timeout }
    }

    /// Stop forced heating (not supported on all devices). Returns the request to hand to the SDK, waited on for the default
    /// command timeout.
    pub fn stop_forced_heating(&self, handle: u32) -> (r: CommandRequest)
        ensures
            r.handle == handle,
            r.command == SdkCommand::StopForcedHeating,
            r.timeout == duration_from_secs(2),
    {
        self.stop_forced_heating_with_timeout(handle, default_cmd_timeout())
    }

    /// Stop forced heating (not supported on all devices). Returns the request to hand to the SDK, waited on for `timeout`.
    pub fn stop_forced_heating_with_timeout(&self, handle: u32, timeout: Duration) -> (r: CommandRequest)
        ensures
            r.handle == handle,
            r.command == SdkCommand::StopForcedHeating,
            r.timeout == timeout,
    {
        CommandRequest { handle, command: SdkCommand::StopForcedHeating, timeout }
    }

    /// Set the work mode used after boot. Returns the request to hand to the SDK, waited on for the default
    /// command timeout.
    pub fn set_work_mode_after_boot(&self, handle: u32, work_mode: LivoxLidarWorkModeAfterBoot) -> (r: CommandRequest)
        ensures
            r.handle == handle,
            r.command == SdkCommand::SetWorkModeAfterBoot(work_mode),
            r.timeout == duration_from_secs(2),
    {
        self.set_work_mode_after_boot_with_timeout(handle, work_mode, default_cmd_timeout())
    }

    /// Set the work mode used after boot. Returns the request to hand to the SDK, waited on for `timeout`.
    pub fn set_work_mode_after_boot_with_timeout(&self, handle: u32, work_mode: LivoxLidarWorkModeAfterBoot, timeout: Duration) -> (r: CommandRequest)
        ensures
            r.handle == handle,
            r.command == SdkCommand::SetWorkModeAfterBoot(work_mode),
            r.timeout == timeout,
    {
        CommandRequest { handle, command: SdkCommand::SetWorkModeAfterBoot(work_mode), timeout }
    }

    /// Request a device reset. Returns the request to hand to the SDK, waited on for the default
    /// command timeout.
    pub fn request_reset(&self, handle: u32) -> (r: CommandRequest)
        ensures
            r.handle == handle,
            r.command == SdkCommand::RequestReset,
            r.timeout == duration_from_secs(2),
    {
        self.request_reset_with_timeout(handle, default_cmd_timeout())
    }

    /// Request a device reset. Returns the request to hand to the SDK, waited on for `timeout`.
    pub fn request_reset_with_timeout(&self, handle: u32, timeout: Duration) -> (r: CommandRequest)
        ensures
            r.handle == handle,
            r.command == SdkCommand::RequestReset,
            r.timeout == timeout,
    {
        CommandRequest { handle, command: SdkCommand::RequestReset, timeout }
    }

    /// Request a device reboot. Returns the request to hand to the SDK, waited on for the default
    /// command timeout.
    pub fn request_reboot(&self, handle: u32) -> (r: CommandRequest)
        ensures
            r.handle == handle,
            r.command == SdkCommand::RequestReboot,
            r.timeout == duration_from_secs(2),
    {
        self.request_reboot_with_timeout(handle, default_cmd_timeout())
    }

    /// Request a device reboot. Returns the request to hand to the SDK, waited on for `timeout`.
    pub fn request_reboot_with_timeout(&self, handle: u32, timeout: Duration) -> (r: CommandRequest)
        ensures
            r.handle == handle,
            r.command == SdkCommand::RequestReboot,
            r.timeout == timeout,
    {
        CommandRequest { handle, command: SdkCommand::RequestReboot, timeout }
    }

    /// Start device logging. Returns the request to hand to the SDK, waited on for the default
    /// command timeout.
    pub fn start_logger(&self, handle: u32, log_type: LogType) -> (r: CommandRequest)
        ensures
            r.handle == handle,
            r.command == SdkCommand::StartLogger(log_type),
            r.timeout == duration_from_secs(2),
    {
        self.start_logger_with_timeout(handle, log_type, default_cmd_timeout())
    }

    /// Start device logging. Returns the request to hand to the SDK, waited on for `timeout`.
    pub fn start_logger_with_timeout(&self, handle: u32, log_type: LogType, timeout: Duration) -> (r: CommandRequest)
        ensures
            r.handle == handle,
            r.command == SdkCommand::StartLogger(log_type),
            r.timeout == timeout,
    {
        CommandRequest { handle, command: SdkCommand::StartLogger(log_type), timeout }
    }

    /// Stop device logging. Returns the request to hand to the SDK, waited on for the default
    /// command timeout.
    pub fn stop_logger(&self, handle: u32, log_type: LogType) -> (r: CommandRequest)
        ensures
            r.handle == handle,
            r.command == SdkCommand::StopLogger(log_type),
            r.timeout == duration_from_secs(2),
    {
        self.stop_logger_with_timeout(handle, log_type, default_cmd_timeout())
    }

    /// Stop device logging. Returns the request to hand to the SDK, waited on for `timeout`.
    pub fn stop_logger_with_timeout(&self, handle: u32, log_type: LogType, timeout: Duration) -> (r: CommandRequest)
        ensures
            r.handle == handle,
            r.command == SdkCommand::StopLogger(log_type),
            r.timeout == timeout,
    {
        CommandRequest { handle, command: SdkCommand::StopLogger(log_type), timeout }
    }

    /// Set GPS "$GPRMC" string to synchronize device time, waited on for the
    /// default command timeout.
    pub fn set_rmc_sync_time(&self, handle: u32, rmc: &str) -> (r: Result<CommandRequest, CommandError>)
        ensures
            rmc_request(handle, rmc.spec_bytes(), duration_from_secs(2), r),
    {
        self.set_rmc_sync_time_with_timeout(handle, rmc, default_cmd_timeout())
    }

    /// Set GPS "$GPRMC" string to synchronize device time, waited on for `timeout`.
    ///
    /// Refused with `InvalidArgument` when the sentence holds a NUL byte, or is longer
    /// than 65535 bytes.
    pub fn set_rmc_sync_time_with_timeout(
        &self,
        handle: u32,
        rmc: &str,
        timeout: Duration,
    ) -> (r: Result<CommandRequest, CommandError>)
        ensures
            rmc_request(handle, rmc.spec_bytes(), timeout, r),
    {
        let bytes = rmc.as_bytes();
        let mut i: usize = 0;
        while i < bytes.len()
            invariant
                bytes@ == rmc.spec_bytes(),
                i <= bytes@.len(),
                forall|j: int| 0 <= j < i ==> bytes@[j] != 0,
            decreases bytes@.len() - i,
        {
            if bytes[i] == 0 {
                assert(bytes@.contains(0u8)) by {
                    assert(bytes@[i as int] == 0u8);
                }
                return Err(CommandError::InvalidArgument("rmc contains NUL byte"));
            }
            i = i + 1;
        }
        let len = bytes.len();
        if len > 65535 {
            return Err(CommandError::InvalidArgument("rmc too long"));
        }
        let rmc_copy = slice_to_vec(bytes);
        Ok(
            CommandRequest {
                handle,
                command: SdkCommand::SetRmcSyncTime { rmc: rmc_copy, rmc_length: len as u16 },
                timeout,
            },
        )
    }
}

/// `r` is what asking to synchronise device `handle`'s time from the sentence
/// `bytes`, waiting `timeout`, gives.
pub open spec fn rmc_request(
    handle: u32,
    bytes: Seq<u8>,
    timeout: Duration,
    r: Result<CommandRequest, CommandError>,
) -> bool {
    if bytes.contains(0u8) {
        r matches Err(CommandError::InvalidArgument(msg)) && msg@ == "rmc contains NUL byte"@
    } else if bytes.len() > 65535 {
        r matches Err(CommandError::InvalidArgument(msg)) && msg@ == "rmc too long"@
    } else {
        &&& r is Ok
        &&& r->Ok_0.handle == handle
        &&& r->Ok_0.timeout == timeout
        &&& r->Ok_0.command matches SdkCommand::SetRmcSyncTime { rmc, rmc_length } && rmc@ == bytes
            && rmc_length as int == bytes.len()
    }
}

} // verus!
