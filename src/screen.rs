//! Results of screen capture commands. Capturing and image encoding are done
//! by the caller; this module decides which monitor is meant and shapes the
//! result.
use vstd::prelude::*;
use crate::encoding::{base64_encode, base64_of};

verus! {

/// A monitor as reported to the caller.
#[derive(Clone, Debug)]
pub struct MonitorInfo {
    pub index: usize,
    pub name: String,
    pub x: i32,
    pub y: i32,
    pub width: u32,
    pub height: u32,
    pub is_primary: bool,
}

/// Outcome of a screenshot command.
#[derive(Clone, Debug)]
pub struct ScreenshotResult {
    pub success: bool,
    pub image_base64: Option<String>,
    pub width: Option<u32>,
    pub height: Option<u32>,
    pub error: Option<String>,
}

/// The monitor a screenshot is taken of: the requested index, or the first
/// monitor when none is requested; `None` when there is no such monitor.
pub fn select_monitor(requested: Option<usize>, monitor_count: usize) -> (r: Option<usize>)
    ensures
        r == (match requested {
            Some(i) => if i < monitor_count { Some(i) } else { None },
            None => if 0 < monitor_count { Some(0usize) } else { None },
        }),
{
    let index = match requested {
        Some(i) => i,
        None => 0,
    };
    if index < monitor_count {
        Some(index)
    } else {
        None
    }
}

impl ScreenshotResult {
    /// The result when the system reports no monitor at all.
    pub fn no_monitors() -> (r: ScreenshotResult)
        ensures
            !r.success,
            r.image_base64 is None && r.width is None && r.height is None,
            r.error matches Some(e) && e@ == "No monitors found"@,
    {
        ScreenshotResult {
            success: false,
            image_base64: None,
            width: None,
            height: None,
            error: Some(String::from_str("No monitors found")),
        }
    }

    /// The result for a captured image, given as PNG bytes and its size.
    pub fn captured(png: &[u8], width: u32, height: u32) -> (r: ScreenshotResult)
        ensures
            r.success,
            r.image_base64 matches Some(s) && s@ == base64_of(png@),
            r.width == Some(width) && r.height == Some(height),
            r.error is None,
    {
        ScreenshotResult {
            success: true,
            image_base64: Some(base64_encode(png)),
            width: Some(width),
            height: Some(height),
            error: None,
        }
    }
}

} // verus!
