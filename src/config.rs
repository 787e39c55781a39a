use vstd::prelude::*;
use crate::error::CaptureError;

verus! {

/// Lowest accepted frame rate.
pub const MIN_FPS: u32 = 1;
/// Highest accepted frame rate.
pub const MAX_FPS: u32 = 240;
/// Highest accepted quality value.
pub const MAX_QUALITY: u32 = 100;
/// Largest accepted frame side, in pixels.
pub const MAX_SIDE: u32 = 8192;
/// Frame size used when no region is configured.
pub const DEFAULT_WIDTH: u32 = 1920;
pub const DEFAULT_HEIGHT: u32 = 1080;

/// Screen region to capture.
#[derive(Debug, Clone, Copy, PartialEq, Eq)]
pub struct CaptureRegion {
    pub x: u32,
    pub y: u32,
    pub width: u32,
    pub height: u32,
}

/// Configuration for one recording; immutable once a session is built from it.
#[derive(Debug, Clone)]
pub struct RecordingConfig {
    /// Output container path.
    pub output_path: String,
    /// Frames per second.
    pub fps: u32,
    /// Video quality, 0 to 100.
    pub quality: u32,
    /// Capture the mouse cursor.
    pub capture_cursor: bool,
    /// Display to capture (None = primary display).
    pub display_id: Option<u32>,
    /// Capture region (None = full screen).
    pub region: Option<CaptureRegion>,
    /// Capture microphone audio.
    pub capture_microphone: bool,
    /// Microphone device (None = default microphone).
    pub microphone_device_id: Option<String>,
}

/// A frame side that the codec accepts: positive, even, bounded.
pub open spec fn valid_side(n: u32) -> bool {
    2 <= n <= MAX_SIDE && n % 2 == 0
}

pub open spec fn valid_fps(fps: u32) -> bool {
    MIN_FPS <= fps <= MAX_FPS
}

/// The frame size a configuration captures at.
pub open spec fn spec_capture_size(region: Option<CaptureRegion>) -> (u32, u32) {
    match region {
        Some(r) => (r.width, r.height),
        None => (DEFAULT_WIDTH, DEFAULT_HEIGHT),
    }
}

impl RecordingConfig {
    /// A configuration that a session can be built from.
    pub open spec fn spec_valid(&self) -> bool {
        &&& self.output_path@.len() > 0
        &&& valid_fps(self.fps)
        &&& self.quality <= MAX_QUALITY
        &&& valid_side(spec_capture_size(self.region).0)
        &&& valid_side(spec_capture_size(self.region).1)
    }

    /// The frame size this configuration captures at: the region's, or the
    /// default full-screen size.
    pub fn capture_size(&self) -> (r: (u32, u32))
        ensures
            r == spec_capture_size(self.region),
    {
        match self.region {
            Some(r) => (r.width, r.height),
            None => (DEFAULT_WIDTH, DEFAULT_HEIGHT),
        }
    }

    /// Checks the configuration; a configuration error names what is wrong.
    pub fn validate(&self) -> (r: Result<(), CaptureError>)
        ensures
            r.is_ok() == self.spec_valid(),
            r matches Err(e) ==> e is Configuration,
    {
        if self.output_path.as_str().is_empty() {
            return Err(CaptureError::Configuration(String::from_str("output path is empty")));
        }
        if self.fps < MIN_FPS || self.fps > MAX_FPS {
            return Err(CaptureError::Configuration(String::from_str("unsupported frame rate")));
        }
        if self.quality > MAX_QUALITY {
            return Err(CaptureError::Configuration(String::from_str("quality is above 100")));
        }
        let (w, h) = self.capture_size();
        if w < 2 || w > MAX_SIDE || w % 2 != 0 || h < 2 || h > MAX_SIDE || h % 2 != 0 {
            return Err(CaptureError::Configuration(String::from_str("unsupported resolution")));
        }
        Ok(())
    }
}

impl Default for RecordingConfig {
    fn default() -> (r: Self)
        ensures
            r.output_path@ == "recording.mp4"@,
            r.fps == 30,
            r.quality == 80,
            r.capture_cursor,
            r.display_id is None,
            r.region is None,
            !r.capture_microphone,
            r.microphone_device_id is None,
    {
        RecordingConfig {
            output_path: String::from_str("recording.mp4"),
            fps: 30,
            quality: 80,
            capture_cursor: true,
            display_id: None,
            region: None,
            capture_microphone: false,
            microphone_device_id: None,
        }
    }
}

} // verus!
