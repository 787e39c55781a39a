use vstd::prelude::*;
use crate::error::CaptureError;

verus! {

/// Notification that a recording was saved.
#[derive(Debug, Clone)]
pub struct ClipSavedEvent {
    pub path: String,
    pub duration_ms: u64,
}

/// Structured error notification.
#[derive(Debug, Clone)]
pub struct ErrorEvent {
    pub code: String,
    pub message: String,
}

impl ErrorEvent {
    /// The notification of an error, under the error's code.
    pub fn from_error(e: &CaptureError, message: String) -> (r: ErrorEvent)
        ensures
            r.code@ == e.spec_code(),
            r.message == message,
    {
        ErrorEvent { code: e.code(), message }
    }
}

/// A screen region as the region selector reports it.
#[derive(Debug, Clone, Copy, PartialEq, Eq)]
pub struct CaptureRegion {
    pub x: i32,
    pub y: i32,
    pub width: u32,
    pub height: u32,
}

impl CaptureRegion {
    /// The region as capture coordinates; a region that starts left of or
    /// above the screen has no such form.
    pub fn to_capture(&self) -> (r: Option<(u32, u32, u32, u32)>)
        ensures
            r is Some <==> self.x >= 0 && self.y >= 0,
            r matches Some(t) ==> t == (self.x as u32, self.y as u32, self.width, self.height),
    {
        if self.x < 0 || self.y < 0 {
            None
        } else {
            Some((self.x as u32, self.y as u32, self.width, self.height))
        }
    }
}

} // verus!
