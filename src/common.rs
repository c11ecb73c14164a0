//! Value types shared by every subsystem.
use vstd::prelude::*;

verus! {

/// Native code of the left eye.
pub const EYE_LEFT_CODE: u32 = 0;

/// Native code of the right eye.
pub const EYE_RIGHT_CODE: u32 = 1;

/// Rendering viewpoint selector for projection and distortion queries.
#[derive(Clone, Copy, Debug, PartialEq, Eq, Structural)]
pub enum Eye {
    Left,
    Right,
}

/// The native code of an eye.
pub open spec fn eye_code(eye: Eye) -> u32 {
    match eye {
        Eye::Left => EYE_LEFT_CODE,
        Eye::Right => EYE_RIGHT_CODE,
    }
}

impl Eye {
    /// The code that the runtime expects for this eye.
    pub fn to_raw(&self) -> (r: u32)
        ensures
            r == eye_code(*self),
    {
        match self {
            Eye::Left => EYE_LEFT_CODE,
            Eye::Right => EYE_RIGHT_CODE,
        }
    }
}

/// Width and height of a render target, in pixels.
#[derive(Clone, Copy, Debug, PartialEq, Eq, Structural)]
pub struct Size {
    pub width: u32,
    pub height: u32,
}

/// A two-component value: a texture coordinate, a touch pad position, an axis.
#[derive(Clone, Copy, Debug, PartialEq)]
pub struct Point2<F> {
    pub x: F,
    pub y: F,
}

/// Where one undistorted coordinate lands for each colour channel, which
/// differ because of the lenses' chromatic aberration.
#[derive(Clone, Copy, Debug, PartialEq)]
pub struct DistortionCoordinates<F> {
    pub red: Point2<F>,
    pub green: Point2<F>,
    pub blue: Point2<F>,
}

impl<F> DistortionCoordinates<F> {
    /// Takes the runtime's three channel results as they are.
    pub fn from_channels(red: Point2<F>, green: Point2<F>, blue: Point2<F>) -> (r: Self)
        ensures
            r.red == red,
            r.green == green,
            r.blue == blue,
    {
        DistortionCoordinates { red, green, blue }
    }
}

} // verus!
