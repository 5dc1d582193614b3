//! EXIF orientation handling: which pre-rotation a photo needs before it
//! becomes a texture, and what that does to its pixel size. Only the three
//! pure-rotation orientation tags are honored; every other value — and any
//! unreadable tag — leaves the image as it is.

use vstd::prelude::*;

verus! {

/// The pre-rotation baked into a texture before the show starts.
#[derive(Clone, Copy, Debug, PartialEq, Eq, Structural)]
pub enum ExifRotation {
    /// No rotation.
    Deg0,
    /// Half turn.
    Deg180,
    /// Quarter turn clockwise.
    Cw90,
    /// Quarter turn counter-clockwise.
    Ccw90,
}

/// The rotation called for by an EXIF orientation tag value: 3 is a half
/// turn, 6 a clockwise quarter turn, 8 a counter-clockwise quarter turn;
/// every other value is drawn unrotated.
pub open spec fn rotation_of_orientation(orientation: u16) -> ExifRotation {
    if orientation == 3 {
        ExifRotation::Deg180
    } else if orientation == 6 {
        ExifRotation::Cw90
    } else if orientation == 8 {
        ExifRotation::Ccw90
    } else {
        ExifRotation::Deg0
    }
}

/// Map an EXIF orientation tag value to the rotation to apply; see
/// `rotation_of_orientation`.
pub fn rotation_for_orientation(orientation: u16) -> (r: ExifRotation)
    ensures
        r == rotation_of_orientation(orientation),
{
    match orientation {
        3 => ExifRotation::Deg180,
        6 => ExifRotation::Cw90,
        8 => ExifRotation::Ccw90,
        _ => ExifRotation::Deg0,
    }
}

/// The pixel size of an image after the rotation: quarter turns swap the
/// two extents, other rotations keep them.
pub fn rotated_dims(width: u32, height: u32, rotation: ExifRotation) -> (dims: (u32, u32))
    ensures
        (rotation == ExifRotation::Cw90 || rotation == ExifRotation::Ccw90) ==> dims == (
            height,
            width,
        ),
        (rotation == ExifRotation::Deg0 || rotation == ExifRotation::Deg180) ==> dims == (
            width,
            height,
        ),
{
    match rotation {
        ExifRotation::Cw90 => (height, width),
        ExifRotation::Ccw90 => (height, width),
        ExifRotation::Deg0 => (width, height),
        ExifRotation::Deg180 => (width, height),
    }
}

} // verus!
