use vstd::prelude::*;

verus! {

/// The error taxonomy of the capture core.
#[derive(Debug, Clone, PartialEq, Eq)]
pub enum CaptureError {
    /// Invalid resolution, frame rate, quality or path.
    Configuration(String),
    /// Native setup or permission failure.
    Initialization(String),
    /// A start or a second session conflicts with an active one.
    AlreadyActive,
    /// Stop (or a frame) on a session that is not recording.
    NotActive,
    /// A codec or muxing failure in the middle of the stream.
    Encoding(String),
    /// Stop on a session that never received a frame.
    NoFrames,
    /// A filesystem failure.
    Io(String),
}

impl CaptureError {
    pub open spec fn spec_code(&self) -> Seq<char> {
        match self {
            CaptureError::Configuration(_) => "CONFIGURATION_ERROR"@,
            CaptureError::Initialization(_) => "INITIALIZATION_ERROR"@,
            CaptureError::AlreadyActive => "ALREADY_ACTIVE"@,
            CaptureError::NotActive => "NOT_ACTIVE"@,
            CaptureError::Encoding(_) => "ENCODING_ERROR"@,
            CaptureError::NoFrames => "NO_FRAMES"@,
            CaptureError::Io(_) => "IO_ERROR"@,
        }
    }

    /// The stable code under which this error is reported to collaborators.
    pub fn code(&self) -> (r: String)
        ensures
            r@ == self.spec_code(),
    {
        match self {
            CaptureError::Configuration(_) => String::from_str("CONFIGURATION_ERROR"),
            CaptureError::Initialization(_) => String::from_str("INITIALIZATION_ERROR"),
            CaptureError::AlreadyActive => String::from_str("ALREADY_ACTIVE"),
            CaptureError::NotActive => String::from_str("NOT_ACTIVE"),
            CaptureError::Encoding(_) => String::from_str("ENCODING_ERROR"),
            CaptureError::NoFrames => String::from_str("NO_FRAMES"),
            CaptureError::Io(_) => String::from_str("IO_ERROR"),
        }
    }
}

} // verus!
