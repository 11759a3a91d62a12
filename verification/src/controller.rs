//! Controller configuration: validates the caller-facing tagged union by
//! controller kind and translates it into the plain values the native
//! creation call takes. The method masks of a device-bridge controller
//! travel as decimal text and must read as 64-bit numbers; a gamepad
//! controller defaults to the Xbox-style type and desktop-duplication
//! capture; the PlayCover kind is not supported on this platform.

use vstd::prelude::*;

use crate::text::all_dec_digits;
use crate::text::dec_val;
use crate::text::parse_u64;
use crate::text::str_eq;
use crate::types::ControllerConfig;
use crate::types::MaaError;

verus! {

/// Gamepad type understood by the native layer: Xbox-style.
pub const MAA_GAMEPAD_TYPE_XBOX360: i32 = 1;

/// Gamepad type understood by the native layer: DualShock-style.
pub const MAA_GAMEPAD_TYPE_DUALSHOCK4: i32 = 2;

/// Capture method: desktop duplication, the gamepad default.
pub const MAA_WIN32_SCREENCAP_DXGI_DESKTOPDUP: u64 = 4;

/// Controller option key: target short side of captured frames.
pub const MAA_CTRL_OPTION_SCREENSHOT_TARGET_SHORT_SIDE: i32 = 2;

/// The fixed capture resolution applied to every new controller.
pub const DEFAULT_SCREENSHOT_SHORT_SIDE: i32 = 720;

/// A decimal 64-bit number written as text.
pub open spec fn is_u64_text(s: Seq<char>) -> bool {
    s.len() > 0 && all_dec_digits(s) && dec_val(s) <= u64::MAX
}

/// The plain values a native controller-creation call takes.
#[derive(Debug, Clone)]
pub enum NativeControllerSpec {
    Adb {
        adb_path: String,
        address: String,
        screencap_methods: u64,
        input_methods: u64,
        config: String,
    },
    Win32 {
        handle: u64,
        screencap_method: u64,
        mouse_method: u64,
        keyboard_method: u64,
    },
    Gamepad {
        handle: u64,
        gamepad_type: i32,
        screencap_method: u64,
    },
}

/// The gamepad type a name selects: the DualShock names select it, any
/// other name and no name select the Xbox-style default.
pub open spec fn gamepad_type_of(name: Option<Seq<char>>) -> i32 {
    match name {
        Some(n) => if n == "DualShock4"@ || n == "DS4"@ {
            MAA_GAMEPAD_TYPE_DUALSHOCK4
        } else {
            MAA_GAMEPAD_TYPE_XBOX360
        },
        None => MAA_GAMEPAD_TYPE_XBOX360,
    }
}

/// Validates a controller configuration and translates it into the plain
/// values of the native creation call. A device-bridge method mask that is
/// not a decimal 64-bit number is rejected, naming the bad field; the
/// PlayCover kind is rejected as unsupported on this platform.
pub fn prepare_controller_spec(config: &ControllerConfig) -> (r: Result<
    NativeControllerSpec,
    MaaError,
>)
    ensures
        config matches ControllerConfig::Adb {
            adb_path,
            address,
            screencap_methods,
            input_methods,
            config: cfg,
        } ==> {
            if !is_u64_text(screencap_methods@) {
                r == Err::<NativeControllerSpec, MaaError>(MaaError::InvalidScreencapMethods)
            } else if !is_u64_text(input_methods@) {
                r == Err::<NativeControllerSpec, MaaError>(MaaError::InvalidInputMethods)
            } else {
                r matches Ok(NativeControllerSpec::Adb {
                    adb_path: ap,
                    address: ad,
                    screencap_methods: sm,
                    input_methods: im,
                    config: c,
                }) && ap@ == adb_path@ && ad@ == address@ && sm == dec_val(screencap_methods@)
                    && im == dec_val(input_methods@) && c@ == cfg@
            }
        },
        config matches ControllerConfig::Win32 {
            handle,
            screencap_method,
            mouse_method,
            keyboard_method,
        } ==> r == Ok::<NativeControllerSpec, MaaError>(NativeControllerSpec::Win32 {
            handle: *handle,
            screencap_method: *screencap_method,
            mouse_method: *mouse_method,
            keyboard_method: *keyboard_method,
        }),
        config matches ControllerConfig::Gamepad { handle, gamepad_type, screencap_method } ==> {
            r matches Ok(NativeControllerSpec::Gamepad {
                handle: h,
                gamepad_type: g,
                screencap_method: sm,
            }) && h == *handle && g == gamepad_type_of(match gamepad_type {
                Some(n) => Some(n@),
                None => None::<Seq<char>>,
            }) && sm == (match screencap_method {
                Some(m) => *m,
                None => MAA_WIN32_SCREENCAP_DXGI_DESKTOPDUP,
            })
        },
        config matches ControllerConfig::PlayCover { .. } ==> r == Err::<
            NativeControllerSpec,
            MaaError,
        >(MaaError::PlayCoverUnsupported),
{
    match config {
        ControllerConfig::Adb { adb_path, address, screencap_methods, input_methods, config: cfg } => {
            let sm = match parse_u64(screencap_methods.as_str()) {
                Some(v) => v,
                None => {
                    return Err(MaaError::InvalidScreencapMethods);
                },
            };
            let im = match parse_u64(input_methods.as_str()) {
                Some(v) => v,
                None => {
                    return Err(MaaError::InvalidInputMethods);
                },
            };
            Ok(NativeControllerSpec::Adb {
                adb_path: adb_path.clone(),
                address: address.clone(),
                screencap_methods: sm,
                input_methods: im,
                config: cfg.clone(),
            })
        },
        ControllerConfig::Win32 { handle, screencap_method, mouse_method, keyboard_method } => Ok(
            NativeControllerSpec::Win32 {
                handle: *handle,
                screencap_method: *screencap_method,
                mouse_method: *mouse_method,
                keyboard_method: *keyboard_method,
            },
        ),
        ControllerConfig::Gamepad { handle, gamepad_type, screencap_method } => {
            let gp: i32 = match gamepad_type {
                Some(name) => {
                    if str_eq(name.as_str(), "DualShock4") || str_eq(name.as_str(), "DS4") {
                        MAA_GAMEPAD_TYPE_DUALSHOCK4
                    } else {
                        MAA_GAMEPAD_TYPE_XBOX360
                    }
                },
                None => MAA_GAMEPAD_TYPE_XBOX360,
            };
            let sm: u64 = match screencap_method {
                Some(m) => *m,
                None => MAA_WIN32_SCREENCAP_DXGI_DESKTOPDUP,
            };
            Ok(NativeControllerSpec::Gamepad { handle: *handle, gamepad_type: gp, screencap_method: sm })
        },
        ControllerConfig::PlayCover { .. } => Err(MaaError::PlayCoverUnsupported),
    }
}

} // verus!
