use maa_lifecycle::confirm_handle;
use maa_lifecycle::confirm_post_id;
use maa_lifecycle::controller::prepare_controller_spec;
use maa_lifecycle::controller::NativeControllerSpec;
use maa_lifecycle::controller::MAA_GAMEPAD_TYPE_DUALSHOCK4;
use maa_lifecycle::controller::MAA_GAMEPAD_TYPE_XBOX360;
use maa_lifecycle::controller::MAA_WIN32_SCREENCAP_DXGI_DESKTOPDUP;
use maa_lifecycle::discovery::filter_windows;
use maa_lifecycle::registry::ReleaseAction;
use maa_lifecycle::screencap::cached_image_outcome;
use maa_lifecycle::types::connection_status_of;
use maa_lifecycle::types::task_status_of;
use maa_lifecycle::types::ConnectionStatus;
use maa_lifecycle::types::ControllerConfig;
use maa_lifecycle::types::MaaError;
use maa_lifecycle::types::TaskStatus;
use maa_lifecycle::types::Win32Window;

#[test]
fn adb_config_translates_with_parsed_masks() {
    let config = ControllerConfig::Adb {
        adb_path: "/usr/bin/adb".to_string(),
        address: "127.0.0.1:5555".to_string(),
        screencap_methods: "18446744073709551559".to_string(),
        input_methods: "18446744073709551607".to_string(),
        config: "{}".to_string(),
    };
    match prepare_controller_spec(&config) {
        Ok(NativeControllerSpec::Adb { adb_path, address, screencap_methods, input_methods, config }) => {
            assert_eq!(adb_path, "/usr/bin/adb");
            assert_eq!(address, "127.0.0.1:5555");
            assert_eq!(screencap_methods, 18446744073709551559);
            assert_eq!(input_methods, 18446744073709551607);
            assert_eq!(config, "{}");
        },
        other => panic!("expected a device-bridge spec, got {:?}", other),
    }
}

#[test]
fn adb_config_rejects_bad_masks_naming_the_field() {
    let config = ControllerConfig::Adb {
        adb_path: "adb".to_string(),
        address: "a".to_string(),
        screencap_methods: "not-a-number".to_string(),
        input_methods: "1".to_string(),
        config: "{}".to_string(),
    };
    assert!(matches!(
        prepare_controller_spec(&config),
        Err(MaaError::InvalidScreencapMethods)
    ));
    let config = ControllerConfig::Adb {
        adb_path: "adb".to_string(),
        address: "a".to_string(),
        screencap_methods: "1".to_string(),
        input_methods: "".to_string(),
        config: "{}".to_string(),
    };
    assert!(matches!(
        prepare_controller_spec(&config),
        Err(MaaError::InvalidInputMethods)
    ));
}

#[test]
fn win32_config_passes_through() {
    let config = ControllerConfig::Win32 {
        handle: 0xBEEF,
        screencap_method: 1,
        mouse_method: 2,
        keyboard_method: 2,
    };
    match prepare_controller_spec(&config) {
        Ok(NativeControllerSpec::Win32 { handle, screencap_method, mouse_method, keyboard_method }) => {
            assert_eq!(handle, 0xBEEF);
            assert_eq!(screencap_method, 1);
            assert_eq!(mouse_method, 2);
            assert_eq!(keyboard_method, 2);
        },
        other => panic!("expected a desktop spec, got {:?}", other),
    }
}

#[test]
fn gamepad_config_defaults_and_names() {
    let config = ControllerConfig::Gamepad { handle: 1, gamepad_type: None, screencap_method: None };
    match prepare_controller_spec(&config) {
        Ok(NativeControllerSpec::Gamepad { gamepad_type, screencap_method, .. }) => {
            assert_eq!(gamepad_type, MAA_GAMEPAD_TYPE_XBOX360);
            assert_eq!(screencap_method, MAA_WIN32_SCREENCAP_DXGI_DESKTOPDUP);
        },
        other => panic!("expected a gamepad spec, got {:?}", other),
    }
    let config = ControllerConfig::Gamepad {
        handle: 1,
        gamepad_type: Some("DS4".to_string()),
        screencap_method: Some(1),
    };
    match prepare_controller_spec(&config) {
        Ok(NativeControllerSpec::Gamepad { gamepad_type, screencap_method, .. }) => {
            assert_eq!(gamepad_type, MAA_GAMEPAD_TYPE_DUALSHOCK4);
            assert_eq!(screencap_method, 1);
        },
        other => panic!("expected a gamepad spec, got {:?}", other),
    }
    let config = ControllerConfig::Gamepad {
        handle: 1,
        gamepad_type: Some("SomethingElse".to_string()),
        screencap_method: None,
    };
    match prepare_controller_spec(&config) {
        Ok(NativeControllerSpec::Gamepad { gamepad_type, .. }) => {
            assert_eq!(gamepad_type, MAA_GAMEPAD_TYPE_XBOX360);
        },
        other => panic!("expected a gamepad spec, got {:?}", other),
    }
}

#[test]
fn playcover_config_is_unsupported() {
    let config = ControllerConfig::PlayCover { address: "localhost:1717".to_string() };
    assert!(matches!(
        prepare_controller_spec(&config),
        Err(MaaError::PlayCoverUnsupported)
    ));
}

fn window(handle: u64, class_name: &str, window_name: &str) -> Win32Window {
    Win32Window {
        handle,
        class_name: class_name.to_string(),
        window_name: window_name.to_string(),
    }
}

#[test]
fn window_filters_apply_both_patterns() {
    let windows = vec![
        window(1, "UnityWndClass", "Game"),
        window(2, "Chrome_WidgetWin_1", "Browser"),
        window(3, "UnityWndClass", "Editor"),
    ];
    let kept = filter_windows(&windows, &Some("^Unity".to_string()), &None);
    assert_eq!(kept.len(), 2);
    assert_eq!(kept[0].handle, 1);
    assert_eq!(kept[1].handle, 3);
    let kept = filter_windows(
        &windows,
        &Some("^Unity".to_string()),
        &Some("Game".to_string()),
    );
    assert_eq!(kept.len(), 1);
    assert_eq!(kept[0].handle, 1);
}

#[test]
fn window_filter_with_invalid_pattern_passes_everything() {
    let windows = vec![window(1, "A", "x"), window(2, "B", "y")];
    let kept = filter_windows(&windows, &Some("([".to_string()), &None);
    assert_eq!(kept.len(), 2);
}

#[test]
fn window_filter_without_patterns_keeps_enumeration() {
    let windows = vec![window(1, "A", "x")];
    let kept = filter_windows(&windows, &None, &None);
    assert_eq!(kept.len(), 1);
    assert_eq!(kept[0].class_name, "A");
    assert_eq!(kept[0].window_name, "x");
}

#[test]
fn cached_image_success_is_a_data_url() {
    let (trace, result) = cached_image_outcome(9, true, Some(vec![1, 2, 3]));
    assert_eq!(trace, vec![ReleaseAction::DestroyImageBuffer(9)]);
    assert_eq!(result.unwrap(), "data:image/png;base64,AQID");
}

#[test]
fn cached_image_buffer_released_exactly_once_on_every_path() {
    let (trace, result) = cached_image_outcome(9, false, None);
    assert_eq!(trace, vec![ReleaseAction::DestroyImageBuffer(9)]);
    assert_eq!(result, Err(MaaError::CachedImageFailed));
    let (trace, result) = cached_image_outcome(9, true, None);
    assert_eq!(trace, vec![ReleaseAction::DestroyImageBuffer(9)]);
    assert_eq!(result, Err(MaaError::NoImageData));
    let (trace, result) = cached_image_outcome(9, true, Some(Vec::new()));
    assert_eq!(trace, vec![ReleaseAction::DestroyImageBuffer(9)]);
    assert_eq!(result, Err(MaaError::NoImageData));
}

#[test]
fn base64_padding_matches_the_standard_alphabet() {
    let (_, result) = cached_image_outcome(9, true, Some(vec![255]));
    assert_eq!(result.unwrap(), "data:image/png;base64,/w==");
    let (_, result) = cached_image_outcome(9, true, Some(b"hello".to_vec()));
    assert_eq!(result.unwrap(), "data:image/png;base64,aGVsbG8=");
}

#[test]
fn task_status_mapping() {
    assert_eq!(task_status_of(1000), TaskStatus::Pending);
    assert_eq!(task_status_of(2000), TaskStatus::Running);
    assert_eq!(task_status_of(3000), TaskStatus::Succeeded);
    assert_eq!(task_status_of(4000), TaskStatus::Failed);
    assert_eq!(task_status_of(0), TaskStatus::Failed);
    assert_eq!(task_status_of(-5), TaskStatus::Failed);
}

#[test]
fn connection_status_mapping() {
    assert!(matches!(connection_status_of(true, true), ConnectionStatus::Connected));
    assert!(matches!(connection_status_of(true, false), ConnectionStatus::Disconnected));
    assert!(matches!(connection_status_of(false, true), ConnectionStatus::Disconnected));
}

#[test]
fn null_handles_and_posts_become_errors() {
    assert_eq!(confirm_handle(7, MaaError::ControllerCreateFailed), Ok(7));
    assert_eq!(
        confirm_handle(0, MaaError::ControllerCreateFailed),
        Err(MaaError::ControllerCreateFailed)
    );
    assert_eq!(confirm_post_id(12, MaaError::PostTaskFailed), Ok(12));
    assert_eq!(confirm_post_id(0, MaaError::PostScreencapFailed), Err(MaaError::PostScreencapFailed));
}

#[test]
fn error_messages_match_the_command_surface() {
    assert_eq!(MaaError::NotInitialized.message(), "MaaFramework not initialized");
    assert_eq!(MaaError::InstanceNotFound.message(), "Instance not found");
    assert_eq!(MaaError::ResourceMissing.message(), "Resource not loaded");
    assert_eq!(MaaError::ControllerMissing.message(), "Controller not connected");
    assert_eq!(MaaError::TaskerMissing.message(), "Tasker not created");
    assert_eq!(
        MaaError::OverridePipelineUnavailable.message(),
        "MaaTaskerOverridePipeline not available in this MaaFramework version"
    );
    assert_eq!(
        MaaError::PlayCoverUnsupported.message(),
        "PlayCover controller is only supported on macOS"
    );
}

#[test]
fn tasker_inited_gate() {
    assert_eq!(maa_lifecycle::confirm_tasker_inited(true), Ok(()));
    assert_eq!(
        maa_lifecycle::confirm_tasker_inited(false),
        Err(MaaError::TaskerNotInited)
    );
}
