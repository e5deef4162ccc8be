use vstd::prelude::*;
use vstd::string::StringExecFns;

verus! {

/// Errors that a recording operation can report.
#[derive(Debug, Clone)]
pub enum RecordingError {
    PermissionDenied(String),
    DeviceNotFound(String),
    AlreadyRecording,
    NotRecording,
    CaptureError(String),
    EncodingError(String),
    /// A filesystem failure, carried as its message.
    IoError(String),
    PlatformError(String),
    ConfigurationError(String),
}

/// Result type of recording operations.
pub type RecordingResult<T> = Result<T, RecordingError>;

/// The human-readable message of an error.
pub open spec fn error_message(e: RecordingError) -> Seq<char> {
    match e {
        RecordingError::PermissionDenied(m) => "Permission denied: "@ + m@,
        RecordingError::DeviceNotFound(m) => "Device not found: "@ + m@,
        RecordingError::AlreadyRecording => "Already recording"@,
        RecordingError::NotRecording => "Not recording"@,
        RecordingError::CaptureError(m) => "Capture error: "@ + m@,
        RecordingError::EncodingError(m) => "Encoding error: "@ + m@,
        RecordingError::IoError(m) => "IO error: "@ + m@,
        RecordingError::PlatformError(m) => "Platform error: "@ + m@,
        RecordingError::ConfigurationError(m) => "Configuration error: "@ + m@,
    }
}

fn prefixed(prefix: &str, detail: &String) -> (r: String)
    ensures
        r@ == prefix@ + detail@,
{
    let mut r = String::from_str(prefix);
    r.append(detail.as_str());
    r
}

impl RecordingError {
    /// Renders the error as text, detail included.
    pub fn message(&self) -> (r: String)
        ensures
            r@ == error_message(*self),
    {
        match self {
            RecordingError::PermissionDenied(m) => prefixed("Permission denied: ", m),
            RecordingError::DeviceNotFound(m) => prefixed("Device not found: ", m),
            RecordingError::AlreadyRecording => String::from_str("Already recording"),
            RecordingError::NotRecording => String::from_str("Not recording"),
            RecordingError::CaptureError(m) => prefixed("Capture error: ", m),
            RecordingError::EncodingError(m) => prefixed("Encoding error: ", m),
            RecordingError::IoError(m) => prefixed("IO error: ", m),
            RecordingError::PlatformError(m) => prefixed("Platform error: ", m),
            RecordingError::ConfigurationError(m) => prefixed("Configuration error: ", m),
        }
    }
}

} // verus!
