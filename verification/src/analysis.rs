//! The analysis stage's own logic: keypoint selection and the class
//! catalogue.
//!
//! Pose solving itself runs in an outside solver next to the display
//! plumbing; what the stage decides — which keypoints enter the solver
//! and which classes are analysed at all — is defined here.

use vstd::prelude::*;

verus! {

/// Number of detector classes.
pub const CLASS_COUNT: u32 = 18;

/// Camera intrinsics used for pose projection: focal lengths and optical
/// centre, in pixels, with zero distortion.
pub const CAMERA_FX: u32 = 800;

/// See `CAMERA_FX`.
pub const CAMERA_FY: u32 = 800;

/// See `CAMERA_FX`.
pub const CAMERA_CX: u32 = 320;

/// See `CAMERA_FX`.
pub const CAMERA_CY: u32 = 240;

/// The four image-plane keypoints handed to the pose solver: the five
/// detected keypoints with index 2, the centre point, skipped.
pub fn pose_image_points<T: Copy>(points: &[[T; 2]; 5]) -> (r: Vec<[T; 2]>)
    ensures
        r@.len() == 4,
        r@[0] == points[0],
        r@[1] == points[1],
        r@[2] == points[3],
        r@[3] == points[4],
{
    let mut v: Vec<[T; 2]> = Vec::new();
    v.push(points[0]);
    v.push(points[1]);
    v.push(points[3]);
    v.push(points[4]);
    v
}

/// Whether a class index is one the analysis stage handles.
pub fn is_known_class(cls: u32) -> (r: bool)
    ensures
        r == (cls < CLASS_COUNT),
{
    cls < CLASS_COUNT
}

/// The name of each class index the detector can emit.
pub open spec fn spec_class_name(cls: u32) -> Option<&'static str> {
    if cls == 0 {
        Some("PR")
    } else if cls == 1 {
        Some("B1")
    } else if cls == 2 {
        Some("B2")
    } else if cls == 3 {
        Some("B3")
    } else if cls == 4 {
        Some("B4")
    } else if cls == 5 {
        Some("B5")
    } else if cls == 6 {
        Some("BG")
    } else if cls == 7 {
        Some("BO")
    } else if cls == 8 {
        Some("BB")
    } else if cls == 9 {
        Some("R1")
    } else if cls == 10 {
        Some("R2")
    } else if cls == 11 {
        Some("R3")
    } else if cls == 12 {
        Some("R4")
    } else if cls == 13 {
        Some("R5")
    } else if cls == 14 {
        Some("RG")
    } else if cls == 15 {
        Some("RO")
    } else if cls == 16 {
        Some("RB")
    } else if cls == 17 {
        Some("PB")
    } else {
        None
    }
}

/// The name of a class index, for every index the detector can emit.
pub fn class_name(cls: u32) -> (r: Option<&'static str>)
    ensures
        r == spec_class_name(cls),
        (r is Some) == (cls < CLASS_COUNT),
{
    match cls {
        0 => Some("PR"),
        1 => Some("B1"),
        2 => Some("B2"),
        3 => Some("B3"),
        4 => Some("B4"),
        5 => Some("B5"),
        6 => Some("BG"),
        7 => Some("BO"),
        8 => Some("BB"),
        9 => Some("R1"),
        10 => Some("R2"),
        11 => Some("R3"),
        12 => Some("R4"),
        13 => Some("R5"),
        14 => Some("RG"),
        15 => Some("RO"),
        16 => Some("RB"),
        17 => Some("PB"),
        _ => None,
    }
}

} // verus!
