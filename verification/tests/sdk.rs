use std::time::Duration;

use carvi_livox_sdk2::command::SdkCommand;
use carvi_livox_sdk2::sys::{
    FuncIOCfg, LivoxLidarAsyncControlResponse, LivoxLidarDetectMode, LivoxLidarInfo,
    LivoxLidarLoggerResponse, LivoxLidarPointDataType, LivoxLidarRebootResponse,
    LivoxLidarResetResponse, LivoxLidarRmcSyncTimeResponse, LivoxLidarScanPattern,
    LivoxLidarStatus, LivoxLidarWorkMode, LivoxLidarWorkModeAfterBoot,
};
use carvi_livox_sdk2::{
    c_char_array_to_string, default_cmd_timeout, AsyncControlResult, CallbackError, CallbackSlot,
    CommandError, InfoChange, InfoMessage, InitError, InitStep, LogType, Sdk, SdkRefCount,
    StartError, Status, StopError,
};

fn new_sdk(rc: &mut SdkRefCount) -> Sdk {
    match rc.begin_init() {
        InitStep::AlreadyInitialized(sdk) => sdk,
        InitStep::NeedsSdkInit => rc.finish_init(true).expect("init"),
    }
}

fn ok_result() -> AsyncControlResult {
    AsyncControlResult { status: Status(0), ret_code: Some(0), error_key: Some(0) }
}

#[test]
fn status_code_and_success() {
    assert_eq!(Status(0).code(), 0);
    assert!(Status(0).is_success());
    assert!(!Status(-1).is_success());
    assert!(!Status(1).is_success());
    assert_eq!(Status::from(-9).code(), -9);
    assert_eq!(Status::from(LivoxLidarStatus::Timeout.code()), Status(-4));
    assert_eq!(LivoxLidarStatus::SendFailed.code(), -9);
    assert_eq!(LivoxLidarStatus::Success.code(), 0);
}

#[test]
fn status_display_text() {
    assert_eq!(Status(0).to_string(), "kLivoxLidarStatusSuccess (0)");
    assert_eq!(Status(-4).to_string(), "kLivoxLidarStatusTimeout (-4)");
    assert_eq!(Status(-8).to_string(), "kLivoxLidarStatusHandlerImplNotExist (-8)");
    assert_eq!(Status(5).to_string(), "(unknown) (5)");
    assert_eq!(Status(1234567).to_string(), "(unknown) (1234567)");
    assert_eq!(Status(i32::MIN).to_string(), "(unknown) (-2147483648)");
    assert_eq!(Status(i32::MAX).to_string(), "(unknown) (2147483647)");
    assert_eq!(Status(-10).name(), "(unknown)");
}

#[test]
fn command_error_display_text() {
    assert_eq!(
        CommandError::SubmitFailed(Status(-9)).to_string(),
        "command submit failed: kLivoxLidarStatusSendFailed (-9)"
    );
    assert_eq!(
        CommandError::CommandFailed(Status(-2)).to_string(),
        "command failed: kLivoxLidarStatusNotConnected (-2)"
    );
    assert_eq!(
        CommandError::DeviceRejected { ret_code: 3, error_key: Some(0xab) }.to_string(),
        "device rejected command: ret_code=3, error_key=0x00ab"
    );
    assert_eq!(
        CommandError::DeviceRejected { ret_code: 255, error_key: Some(0xBEEF) }.to_string(),
        "device rejected command: ret_code=255, error_key=0xbeef"
    );
    assert_eq!(
        CommandError::DeviceRejected { ret_code: 10, error_key: None }.to_string(),
        "device rejected command: ret_code=10"
    );
    assert_eq!(CommandError::InvalidArgument("rmc too long").to_string(), "invalid argument: rmc too long");
    assert_eq!(
        CommandError::Timeout(Duration::from_secs(2)).to_string(),
        "timed out waiting for callback after 2s"
    );
    assert_eq!(
        CommandError::Timeout(Duration::from_millis(1500)).to_string(),
        "timed out waiting for callback after 1.5s"
    );
}

#[test]
fn other_error_texts() {
    assert_eq!(InitError::InitFailed.to_string(), "LivoxLidarSdkInit failed");
    assert_eq!(StartError::StartFailed.to_string(), "LivoxLidarSdkStart failed");
    assert_eq!(StopError::StopFailed.to_string(), "SDK stop failed");
    assert_eq!(CallbackError::AlreadyInstalled.to_string(), "point cloud callback already installed");
}

#[test]
fn ensure_ok_verdicts() {
    assert!(Sdk::ensure_ok(ok_result()).is_ok());
    assert!(Sdk::ensure_ok(AsyncControlResult { status: Status(0), ret_code: None, error_key: None }).is_ok());
    match Sdk::ensure_ok(AsyncControlResult { status: Status(-4), ret_code: Some(1), error_key: None }) {
        Err(CommandError::CommandFailed(s)) => assert_eq!(s, Status(-4)),
        other => panic!("unexpected {:?}", other),
    }
    match Sdk::ensure_ok(AsyncControlResult { status: Status(0), ret_code: Some(2), error_key: Some(7) }) {
        Err(CommandError::DeviceRejected { ret_code, error_key }) => {
            assert_eq!(ret_code, 2);
            assert_eq!(error_key, Some(7));
        }
        other => panic!("unexpected {:?}", other),
    }
}

#[test]
fn reply_records_become_results() {
    let r = AsyncControlResult::from_async_control(0, Some(LivoxLidarAsyncControlResponse { ret_code: 1, error_key: 0x22 }));
    assert_eq!(r, AsyncControlResult { status: Status(0), ret_code: Some(1), error_key: Some(0x22) });
    let r = AsyncControlResult::from_async_control(-3, None);
    assert_eq!(r, AsyncControlResult { status: Status(-3), ret_code: None, error_key: None });
    let r = AsyncControlResult::from_reset(0, Some(LivoxLidarResetResponse { ret_code: 4 }));
    assert_eq!(r, AsyncControlResult { status: Status(0), ret_code: Some(4), error_key: None });
    let r = AsyncControlResult::from_reboot(-1, Some(LivoxLidarRebootResponse { ret_code: 0 }));
    assert_eq!(r, AsyncControlResult { status: Status(-1), ret_code: Some(0), error_key: None });
    let r = AsyncControlResult::from_logger(0, None);
    assert_eq!(r, AsyncControlResult { status: Status(0), ret_code: None, error_key: None });
    let r = AsyncControlResult::from_rmc_sync_time(0, Some(LivoxLidarRmcSyncTimeResponse { ret: 9 }));
    assert_eq!(r, AsyncControlResult { status: Status(0), ret_code: Some(9), error_key: None });
}

#[test]
fn command_requests_carry_arguments_and_timeout() {
    let mut rc = SdkRefCount::new();
    let sdk = new_sdk(&mut rc);
    assert_eq!(default_cmd_timeout(), Duration::from_secs(2));

    let r = sdk.set_pcl_data_type(7, LivoxLidarPointDataType::CartesianCoordinateLow);
    assert_eq!(r.handle, 7);
    assert_eq!(r.timeout, Duration::from_secs(2));
    assert!(matches!(r.command, SdkCommand::SetPclDataType(LivoxLidarPointDataType::CartesianCoordinateLow)));

    let r = sdk.set_scan_pattern_with_timeout(8, LivoxLidarScanPattern::Repetive, Duration::from_millis(250));
    assert_eq!(r.handle, 8);
    assert_eq!(r.timeout, Duration::from_millis(250));
    assert!(matches!(r.command, SdkCommand::SetScanPattern(LivoxLidarScanPattern::Repetive)));

    assert!(matches!(sdk.set_dual_emit(1, true).command, SdkCommand::SetDualEmit(true)));
    assert!(matches!(sdk.enable_point_send(1).command, SdkCommand::EnablePointSend));
    assert!(matches!(sdk.disable_point_send(1).command, SdkCommand::DisablePointSend));
    assert!(matches!(sdk.enable_imu_data(1).command, SdkCommand::EnableImuData));
    assert!(matches!(sdk.disable_imu_data(1).command, SdkCommand::DisableImuData));
    assert!(matches!(sdk.enable_fov(1, 3).command, SdkCommand::EnableFov(3)));
    assert!(matches!(sdk.disable_fov(1).command, SdkCommand::DisableFov));
    assert!(matches!(sdk.set_detect_mode(1, LivoxLidarDetectMode::Sensitive).command, SdkCommand::SetDetectMode(LivoxLidarDetectMode::Sensitive)));
    let cfg = FuncIOCfg { in0: 1, int1: 2, out0: 3, out1: 4 };
    assert!(matches!(sdk.set_func_io_cfg(1, cfg).command, SdkCommand::SetFuncIOCfg(c) if c == cfg));
    assert!(matches!(sdk.set_blind_spot(1, 50).command, SdkCommand::SetBlindSpot(50)));
    assert!(matches!(sdk.set_work_mode(1, LivoxLidarWorkMode::Sleep).command, SdkCommand::SetWorkMode(LivoxLidarWorkMode::Sleep)));
    assert!(matches!(sdk.enable_glass_heat(1).command, SdkCommand::EnableGlassHeat));
    assert!(matches!(sdk.disable_glass_heat(1).command, SdkCommand::DisableGlassHeat));
    assert!(matches!(sdk.start_forced_heating(1).command, SdkCommand::StartForcedHeating));
    assert!(matches!(sdk.stop_forced_heating(1).command, SdkCommand::StopForcedHeating));
    assert!(matches!(
        sdk.set_work_mode_after_boot(1, LivoxLidarWorkModeAfterBoot::WakeUp).command,
        SdkCommand::SetWorkModeAfterBoot(LivoxLidarWorkModeAfterBoot::WakeUp)
    ));
    assert!(matches!(sdk.request_reset(1).command, SdkCommand::RequestReset));
    assert!(matches!(sdk.request_reboot(1).command, SdkCommand::RequestReboot));
    assert!(matches!(sdk.start_logger(1, LogType::Exception).command, SdkCommand::StartLogger(LogType::Exception)));
    assert!(matches!(sdk.stop_logger(1, LogType::RealTime).command, SdkCommand::StopLogger(LogType::RealTime)));
    assert_eq!(sdk.enable_glass_heat_with_timeout(5, Duration::from_secs(9)).timeout, Duration::from_secs(9));
}

#[test]
fn enum_codes() {
    assert_eq!(LogType::RealTime.code(), 0);
    assert_eq!(LogType::Exception.code(), 1);
    assert_eq!(LivoxLidarPointDataType::SphericalCoordinate.code(), 3);
    assert_eq!(LivoxLidarScanPattern::RepetiveLowFrameRate.code(), 2);
    assert_eq!(LivoxLidarDetectMode::Normal.code(), 0);
    assert_eq!(LivoxLidarWorkMode::Normal.code(), 1);
    assert_eq!(LivoxLidarWorkMode::Upgrade.code(), 8);
    assert_eq!(LivoxLidarWorkModeAfterBoot::Default.code(), 0);
}

#[test]
fn command_outcomes() {
    let mut rc = SdkRefCount::new();
    let sdk = new_sdk(&mut rc);
    let req = sdk.enable_point_send(3);
    assert!(req.on_submit(0).is_ok());
    match req.on_submit(-9) {
        Err(CommandError::SubmitFailed(s)) => assert_eq!(s, Status(-9)),
        other => panic!("unexpected {:?}", other),
    }
    match req.on_reply(None) {
        Err(CommandError::Timeout(d)) => assert_eq!(d, Duration::from_secs(2)),
        other => panic!("unexpected {:?}", other),
    }
    assert!(req.on_reply(Some(ok_result())).is_ok());
    assert!(matches!(
        req.on_reply(Some(AsyncControlResult { status: Status(0), ret_code: Some(1), error_key: Some(2) })),
        Err(CommandError::DeviceRejected { ret_code: 1, error_key: Some(2) })
    ));
}

#[test]
fn rmc_sentence_checks() {
    let mut rc = SdkRefCount::new();
    let sdk = new_sdk(&mut rc);
    let sentence = "$GPRMC,083559.00,A,4717.11437,N,00833.91522,E,0.004,77.52,091202,,,A*57";
    let r = sdk.set_rmc_sync_time(2, sentence).expect("valid sentence");
    assert_eq!(r.handle, 2);
    assert_eq!(r.timeout, Duration::from_secs(2));
    match r.command {
        SdkCommand::SetRmcSyncTime { rmc, rmc_length } => {
            assert_eq!(rmc, sentence.as_bytes());
            assert_eq!(rmc_length as usize, sentence.len());
        }
        other => panic!("unexpected {:?}", other),
    }
    match sdk.set_rmc_sync_time(2, "abc\0def") {
        Err(CommandError::InvalidArgument(msg)) => assert_eq!(msg, "rmc contains NUL byte"),
        other => panic!("unexpected {:?}", other),
    }
    let long = "x".repeat(65536);
    match sdk.set_rmc_sync_time_with_timeout(2, &long, Duration::from_secs(1)) {
        Err(CommandError::InvalidArgument(msg)) => assert_eq!(msg, "rmc too long"),
        other => panic!("unexpected {:?}", other),
    }
    let longest = "y".repeat(65535);
    assert!(sdk.set_rmc_sync_time_with_timeout(2, &longest, Duration::from_secs(1)).is_ok());
    assert!(sdk.set_rmc_sync_time(2, "").is_ok());
}

#[test]
fn refcount_initialises_once_and_uninitialises_last() {
    let mut rc = SdkRefCount::new();
    assert_eq!(rc.count(), 0);
    assert!(matches!(rc.begin_init(), InitStep::NeedsSdkInit));
    assert_eq!(rc.count(), 1);
    let first = rc.finish_init(true).expect("init");
    assert_eq!(rc.count(), 1);
    let second = match rc.begin_init() {
        InitStep::AlreadyInitialized(sdk) => sdk,
        InitStep::NeedsSdkInit => panic!("second handle must not re-initialise"),
    };
    assert_eq!(rc.count(), 2);
    assert!(!rc.release(second));
    assert_eq!(rc.count(), 1);
    assert!(rc.release(first));
    assert_eq!(rc.count(), 0);
}

#[test]
fn failed_init_rolls_back() {
    let mut rc = SdkRefCount::new();
    assert!(matches!(rc.begin_init(), InitStep::NeedsSdkInit));
    assert!(matches!(rc.finish_init(false), Err(InitError::InitFailed)));
    assert_eq!(rc.count(), 0);
    assert!(matches!(rc.begin_init(), InitStep::NeedsSdkInit));
}

#[test]
fn start_and_stop() {
    let mut rc = SdkRefCount::new();
    let sdk = new_sdk(&mut rc);
    assert_eq!(sdk.start(true), Ok(()));
    assert_eq!(sdk.start(false), Err(StartError::StartFailed));
    assert_eq!(sdk.stop(), Ok(()));
}

#[test]
fn callback_slots_take_one_handler() {
    let mut rc = SdkRefCount::new();
    let sdk = new_sdk(&mut rc);
    let mut slot: CallbackSlot<u32> = CallbackSlot::new();
    assert!(!slot.is_installed());
    let guard = sdk.install_pointcloud_callback(&mut slot, 1).expect("first install");
    assert_eq!(slot.handler(), Some(&1));
    assert!(matches!(sdk.install_pointcloud_callback(&mut slot, 2), Err(CallbackError::AlreadyInstalled)));
    assert_eq!(slot.handler(), Some(&1));
    guard.release(&mut slot);
    assert!(!slot.is_installed());
    assert!(sdk.install_pointcloud_callback(&mut slot, 3).is_ok());
    assert_eq!(slot.handler(), Some(&3));
    if let Some(h) = slot.handler_mut() {
        *h = 4;
    }
    assert_eq!(slot.handler(), Some(&4));

    let mut s2: CallbackSlot<&str> = CallbackSlot::new();
    let g = sdk.install_imu_callback(&mut s2, "imu").expect("imu");
    assert!(sdk.install_imu_callback(&mut s2, "again").is_err());
    g.release(&mut s2);
    let g = sdk.install_info_callback(&mut s2, "info").expect("info");
    assert!(sdk.install_info_callback(&mut s2, "again").is_err());
    g.release(&mut s2);
    let g = sdk.install_info_change_callback(&mut s2, "change").expect("change");
    assert!(sdk.install_info_change_callback(&mut s2, "again").is_err());
    g.release(&mut s2);
    let g = sdk.install_cmd_observer(&mut s2, "cmd").expect("cmd");
    assert!(sdk.install_cmd_observer(&mut s2, "again").is_err());
    g.release(&mut s2);
    assert!(s2.handler().is_none());
}

#[test]
fn c_strings_stop_at_nul() {
    assert_eq!(c_char_array_to_string(b"abc\0def"), "abc");
    assert_eq!(c_char_array_to_string(b"no-nul"), "no-nul");
    assert_eq!(c_char_array_to_string(b"\0abc"), "");
    assert_eq!(c_char_array_to_string(b""), "");
    assert_eq!(c_char_array_to_string(&[0xFF, b'a', 0, 0xFE]), "\u{FFFD}a");
    assert_eq!(c_char_array_to_string("héllo\0".as_bytes()), "héllo");
}

#[test]
fn info_records_become_messages() {
    let mut sn = [0u8; 16];
    sn[..5].copy_from_slice(b"47MDK");
    let mut ip = [0u8; 16];
    ip[..12].copy_from_slice(b"192.168.1.12");
    let info = LivoxLidarInfo { dev_type: 9, sn, lidar_ip: ip };
    let change = InfoChange::from_info(0x0C01A8C0, &info);
    assert_eq!(change.handle, 0x0C01A8C0);
    assert_eq!(change.dev_type, 9);
    assert_eq!(change.sn, "47MDK");
    assert_eq!(change.lidar_ip, "192.168.1.12");

    let msg = InfoMessage::from_c_text(5, 2, b"{\"status\":1}\0junk");
    assert_eq!(msg.handle, 5);
    assert_eq!(msg.dev_type, 2);
    assert_eq!(msg.info, "{\"status\":1}");
}
