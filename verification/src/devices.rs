//! Device enumeration for the capture surface: the camera and screen
//! descriptors the host offers for selection. The lists are the static
//! stand-ins of the current capture surface; a native platform provider can
//! replace them without touching the session or capture core.

use vstd::prelude::*;

verus! {

/// A capture-capable camera offered to the host.
#[derive(Clone, Debug)]
pub struct CameraDevice {
    pub id: String,
    pub name: String,
    pub is_continuity: bool,
    pub resolution: Option<(u32, u32)>,
}

/// A screen or window source offered to the host.
#[derive(Clone, Debug)]
pub struct ScreenSource {
    pub id: String,
    pub name: String,
    pub display_id: u32,
    pub is_window: bool,
}

/// The cameras the capture surface offers: the built-in camera and the
/// continuity camera, in that order.
pub fn list_native_cameras() -> (r: Vec<CameraDevice>)
    ensures
        r@.len() == 2,
        r@[0].id@ == "built_in"@,
        r@[0].name@ == "FaceTime HD Camera"@,
        !r@[0].is_continuity,
        r@[0].resolution == Some((1280u32, 720u32)),
        r@[1].id@ == "iphone_continuity"@,
        r@[1].name@ == "iPhone 15 Pro Camera (Continuity)"@,
        r@[1].is_continuity,
        r@[1].resolution == Some((1920u32, 1080u32)),
{
    let mut r: Vec<CameraDevice> = Vec::new();
    r.push(
        CameraDevice {
            id: "built_in".to_owned(),
            name: "FaceTime HD Camera".to_owned(),
            is_continuity: false,
            resolution: Some((1280, 720)),
        },
    );
    r.push(
        CameraDevice {
            id: "iphone_continuity".to_owned(),
            name: "iPhone 15 Pro Camera (Continuity)".to_owned(),
            is_continuity: true,
            resolution: Some((1920, 1080)),
        },
    );
    r
}

/// The screen sources the capture surface offers: the main display alone.
pub fn list_screen_sources() -> (r: Vec<ScreenSource>)
    ensures
        r@.len() == 1,
        r@[0].id@ == "main_display"@,
        r@[0].name@ == "Main Display"@,
        r@[0].display_id == 1,
        !r@[0].is_window,
{
    let mut r: Vec<ScreenSource> = Vec::new();
    r.push(
        ScreenSource {
            id: "main_display".to_owned(),
            name: "Main Display".to_owned(),
            display_id: 1,
            is_window: false,
        },
    );
    r
}

} // verus!
