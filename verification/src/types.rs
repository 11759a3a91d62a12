//! Plain data types of the command surface: device and window descriptions,
//! controller configuration, per-instance status snapshots, and the library's
//! error type.

use vstd::prelude::*;
use vstd::string::StringExecFns;

verus! {

/// Raw status code of the native layer: request id is unknown.
pub const MAA_STATUS_INVALID: i32 = 0;

/// Raw status code of the native layer: request queued, not started.
pub const MAA_STATUS_PENDING: i32 = 1000;

/// Raw status code of the native layer: request running.
pub const MAA_STATUS_RUNNING: i32 = 2000;

/// Raw status code of the native layer: request finished successfully.
pub const MAA_STATUS_SUCCEEDED: i32 = 3000;

/// Raw status code of the native layer: request failed.
pub const MAA_STATUS_FAILED: i32 = 4000;

/// The native layer returns this id when a post is rejected.
pub const MAA_INVALID_ID: i64 = 0;

/// A transport device discovered by the native toolkit.
#[derive(Debug, Clone)]
pub struct AdbDevice {
    pub name: String,
    pub adb_path: String,
    pub address: String,
    pub screencap_methods: u64,
    pub input_methods: u64,
    pub config: String,
}

/// A desktop window discovered by the native toolkit.
#[derive(Debug, Clone)]
pub struct Win32Window {
    pub handle: u64,
    pub class_name: String,
    pub window_name: String,
}

/// Caller-facing controller configuration, a tagged union over the
/// supported controller kinds.
#[derive(Debug, Clone)]
pub enum ControllerConfig {
    Adb {
        adb_path: String,
        address: String,
        /// 64-bit method mask carried as text so that boundaries without
        /// full 64-bit integers do not lose precision.
        screencap_methods: String,
        /// 64-bit method mask carried as text, as above.
        input_methods: String,
        config: String,
    },
    Win32 {
        handle: u64,
        screencap_method: u64,
        mouse_method: u64,
        keyboard_method: u64,
    },
    Gamepad {
        handle: u64,
        gamepad_type: Option<String>,
        screencap_method: Option<u64>,
    },
    PlayCover {
        address: String,
    },
}

/// Connection state of an instance's controller.
#[derive(Debug, Clone)]
pub enum ConnectionStatus {
    Disconnected,
    Connecting,
    Connected,
    Failed(String),
}

/// State of one posted task, as reported by the native layer.
#[derive(Debug, Clone, PartialEq, Eq, Structural)]
pub enum TaskStatus {
    Pending,
    Running,
    Succeeded,
    Failed,
}

/// Runtime status snapshot of one instance.
#[derive(Debug, Clone)]
pub struct InstanceState {
    pub connected: bool,
    pub resource_loaded: bool,
    pub tasker_inited: bool,
    pub is_running: bool,
    pub task_ids: Vec<i64>,
}

/// Snapshot of every instance plus the discovery caches.
#[derive(Debug, Clone)]
pub struct AllInstanceStates {
    pub instances: Vec<(String, InstanceState)>,
    pub cached_adb_devices: Vec<AdbDevice>,
    pub cached_win32_windows: Vec<Win32Window>,
}

/// Configuration for an out-of-process helper agent.
#[derive(Debug, Clone)]
pub struct AgentConfig {
    pub child_exec: String,
    pub child_args: Option<Vec<String>>,
    pub identifier: Option<String>,
    /// Connection timeout in milliseconds; -1 means wait without limit.
    pub timeout: Option<i64>,
}

/// A task submission: entry point name and a pipeline override document.
#[derive(Debug, Clone)]
pub struct TaskConfig {
    pub entry: String,
    pub pipeline_override: String,
}

/// Result of a version compatibility check.
#[derive(Debug, Clone)]
pub struct VersionCheckResult {
    pub current: String,
    pub minimum: String,
    pub is_compatible: bool,
}

/// A change list: files added, deleted and modified.
#[derive(Debug, Clone)]
pub struct ChangesJson {
    pub added: Vec<String>,
    pub deleted: Vec<String>,
    pub modified: Vec<String>,
}

/// Where a finished download ended up.
#[derive(Debug, Clone)]
pub struct DownloadResult {
    pub session_id: u64,
    pub actual_save_path: String,
    pub detected_filename: Option<String>,
}

/// Host system description.
#[derive(Debug, Clone)]
pub struct SystemInfo {
    pub os: String,
    pub os_version: String,
    pub arch: String,
    pub tauri_version: String,
}

/// Why a registry or library operation failed.
#[derive(Debug, Clone, PartialEq, Eq, Structural)]
pub enum MaaError {
    /// No binding table is published yet.
    NotInitialized,
    /// The library directory was never recorded.
    LibDirNotSet,
    /// The native version string could not be obtained.
    VersionUnavailable,
    /// The configured minimum version string does not parse.
    MinimumVersionInvalid,
    /// The instance id names no record.
    InstanceNotFound,
    /// The operation needs a resource and none is present.
    ResourceMissing,
    /// The operation needs a controller and none is present.
    ControllerMissing,
    /// The operation needs a tasker and none is present.
    TaskerMissing,
    /// The tasker did not report itself initialized.
    TaskerNotInited,
    /// The native layer returned a null controller.
    ControllerCreateFailed,
    /// The native layer returned a null resource.
    ResourceCreateFailed,
    /// The native layer returned a null tasker.
    TaskerCreateFailed,
    /// The native layer returned a null image buffer.
    ImageBufferCreateFailed,
    /// The native layer rejected the connection post.
    PostConnectionFailed,
    /// The native layer rejected the task post.
    PostTaskFailed,
    /// The native layer rejected the screencap post.
    PostScreencapFailed,
    /// The native layer had no cached image.
    CachedImageFailed,
    /// The cached image carried no encoded data.
    NoImageData,
    /// The pipeline-override entry point is absent from this native
    /// library version.
    OverridePipelineUnavailable,
    /// The platform does not support this controller kind.
    PlayCoverUnsupported,
    /// A screencap method mask string is not a decimal 64-bit number.
    InvalidScreencapMethods,
    /// An input method mask string is not a decimal 64-bit number.
    InvalidInputMethods,
}

/// The display text of each error, as the command surface reports it.
pub open spec fn error_text(e: MaaError) -> Seq<char> {
    match e {
        MaaError::NotInitialized => "MaaFramework not initialized"@,
        MaaError::LibDirNotSet => "lib_dir not set"@,
        MaaError::VersionUnavailable => "Failed to get MaaFramework version"@,
        MaaError::MinimumVersionInvalid => "Failed to parse minimum version"@,
        MaaError::InstanceNotFound => "Instance not found"@,
        MaaError::ResourceMissing => "Resource not loaded"@,
        MaaError::ControllerMissing => "Controller not connected"@,
        MaaError::TaskerMissing => "Tasker not created"@,
        MaaError::TaskerNotInited => "Tasker not properly initialized"@,
        MaaError::ControllerCreateFailed => "Failed to create controller"@,
        MaaError::ResourceCreateFailed => "Failed to create resource"@,
        MaaError::TaskerCreateFailed => "Failed to create tasker"@,
        MaaError::ImageBufferCreateFailed => "Failed to create image buffer"@,
        MaaError::PostConnectionFailed => "Failed to post connection"@,
        MaaError::PostTaskFailed => "Failed to post task"@,
        MaaError::PostScreencapFailed => "Failed to post screencap"@,
        MaaError::CachedImageFailed => "Failed to get cached image"@,
        MaaError::NoImageData => "No image data available"@,
        MaaError::OverridePipelineUnavailable => {
            "MaaTaskerOverridePipeline not available in this MaaFramework version"@
        },
        MaaError::PlayCoverUnsupported => "PlayCover controller is only supported on macOS"@,
        MaaError::InvalidScreencapMethods => "Invalid screencap_methods"@,
        MaaError::InvalidInputMethods => "Invalid input_methods"@,
    }
}

impl MaaError {
    /// A short description fit for direct display.
    pub fn message(&self) -> (r: String)
        ensures
            r@ == error_text(*self),
    {
        let text: &str = match self {
            MaaError::NotInitialized => "MaaFramework not initialized",
            MaaError::LibDirNotSet => "lib_dir not set",
            MaaError::VersionUnavailable => "Failed to get MaaFramework version",
            MaaError::MinimumVersionInvalid => "Failed to parse minimum version",
            MaaError::InstanceNotFound => "Instance not found",
            MaaError::ResourceMissing => "Resource not loaded",
            MaaError::ControllerMissing => "Controller not connected",
            MaaError::TaskerMissing => "Tasker not created",
            MaaError::TaskerNotInited => "Tasker not properly initialized",
            MaaError::ControllerCreateFailed => "Failed to create controller",
            MaaError::ResourceCreateFailed => "Failed to create resource",
            MaaError::TaskerCreateFailed => "Failed to create tasker",
            MaaError::ImageBufferCreateFailed => "Failed to create image buffer",
            MaaError::PostConnectionFailed => "Failed to post connection",
            MaaError::PostTaskFailed => "Failed to post task",
            MaaError::PostScreencapFailed => "Failed to post screencap",
            MaaError::CachedImageFailed => "Failed to get cached image",
            MaaError::NoImageData => "No image data available",
            MaaError::OverridePipelineUnavailable => {
                "MaaTaskerOverridePipeline not available in this MaaFramework version"
            },
            MaaError::PlayCoverUnsupported => {
                "PlayCover controller is only supported on macOS"
            },
            MaaError::InvalidScreencapMethods => "Invalid screencap_methods",
            MaaError::InvalidInputMethods => "Invalid input_methods",
        };
        String::from_str(text)
    }
}

/// Maps a raw native status code onto the task status enum: the three
/// known live codes keep their meaning, everything else counts as failed.
pub fn task_status_of(raw: i32) -> (r: TaskStatus)
    ensures
        raw == MAA_STATUS_PENDING ==> r == TaskStatus::Pending,
        raw == MAA_STATUS_RUNNING ==> r == TaskStatus::Running,
        raw == MAA_STATUS_SUCCEEDED ==> r == TaskStatus::Succeeded,
        raw != MAA_STATUS_PENDING && raw != MAA_STATUS_RUNNING && raw != MAA_STATUS_SUCCEEDED
            ==> r == TaskStatus::Failed,
{
    if raw == MAA_STATUS_PENDING {
        TaskStatus::Pending
    } else if raw == MAA_STATUS_RUNNING {
        TaskStatus::Running
    } else if raw == MAA_STATUS_SUCCEEDED {
        TaskStatus::Succeeded
    } else {
        TaskStatus::Failed
    }
}

/// Derives the connection status from the authoritative native query: no
/// controller or a negative answer both read as disconnected.
pub fn connection_status_of(has_controller: bool, connected: bool) -> (r: ConnectionStatus)
    ensures
        has_controller && connected ==> r is Connected,
        !(has_controller && connected) ==> r is Disconnected,
{
    if has_controller && connected {
        ConnectionStatus::Connected
    } else {
        ConnectionStatus::Disconnected
    }
}

} // verus!
