//! The system and display description that the info command answers with.
use vstd::prelude::*;
use crate::capture::{CaptureError, first_screen};

verus! {

/// A display's size in pixels, as the capture provider lists it.
#[derive(Debug, PartialEq, Eq)]
pub struct DisplaySize {
    pub width: u32,
    pub height: u32,
}

/// The running system's platform name and its first display's size.
#[derive(Debug, PartialEq, Eq)]
pub struct SystemInfo {
    pub platform: String,
    pub screen_width: u32,
    pub screen_height: u32,
}

/// Whether `info` describes `display` on the platform named `platform`.
pub open spec fn describes(info: SystemInfo, platform: Seq<char>, display: DisplaySize) -> bool {
    &&& info.platform@ == platform
    &&& info.screen_width == display.width
    &&& info.screen_height == display.height
}

/// The info command's answer, from the platform's canonical short name and
/// the provider's list of displays (or its failure to list them).
pub fn desktop_env_system_info(platform: String, screens: Result<Vec<DisplaySize>, String>) -> (r: Result<
    SystemInfo,
    CaptureError,
>)
    ensures
        screens is Err ==> r == Err::<SystemInfo, CaptureError>(CaptureError::EnumerationFailed(screens->Err_0)),
        screens is Ok && screens->Ok_0@.len() == 0 ==> r == Err::<SystemInfo, CaptureError>(CaptureError::NoDisplayFound),
        screens is Ok && screens->Ok_0@.len() > 0 ==> r is Ok && describes(r->Ok_0, platform@, screens->Ok_0@[0]),
{
    match first_screen(screens) {
        Err(e) => Err(e),
        Ok(display) => Ok(SystemInfo { platform, screen_width: display.width, screen_height: display.height }),
    }
}

/// An answer about a display of positive size reports a positive width and
/// height, and the platform name it was given.
pub proof fn lemma_reported_size_positive(info: SystemInfo, platform: Seq<char>, display: DisplaySize)
    requires
        describes(info, platform, display),
        display.width > 0,
        display.height > 0,
    ensures
        info.screen_width > 0,
        info.screen_height > 0,
        info.platform@ == platform,
{
}

} // verus!
