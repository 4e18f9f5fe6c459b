//! Window geometry in whole pixels, pointer positions in the protocol's
//! fixed-point units, and the sizing policy of a window.

use vstd::prelude::*;

verus! {

/// Width given to a window when the compositor leaves the choice to the client.
pub const FALLBACK_WIDTH: i32 = 1280;

/// Height given to a window when the compositor leaves the choice to the client.
pub const FALLBACK_HEIGHT: i32 = 720;

/// Side of the interim square that a maximized or fullscreen window has
/// until the compositor's first configure arrives.
pub const PLACEHOLDER_EXTENT: i32 = 500;

/// The only scale factor this backend reports.
pub const SCALE_FACTOR: u32 = 1;

/// A position in whole pixels.
#[derive(Clone, Copy, Debug, PartialEq, Eq, Structural)]
pub struct Point {
    pub x: i32,
    pub y: i32,
}

/// A size in whole pixels.
#[derive(Clone, Copy, Debug, PartialEq, Eq, Structural)]
pub struct Size {
    pub width: i32,
    pub height: i32,
}

/// Origin and size of a window.
#[derive(Clone, Copy, Debug, PartialEq, Eq, Structural)]
pub struct Bounds {
    pub origin: Point,
    pub size: Size,
}

/// What the caller asks of a new window.
#[derive(Clone, Copy, Debug, PartialEq, Eq, Structural)]
pub enum WindowBounds {
    Fullscreen,
    Maximized,
    Fixed(Bounds),
}

/// Options of `open_window`.
#[derive(Clone, Copy, Debug, PartialEq, Eq, Structural)]
pub struct WindowOptions {
    pub bounds: WindowBounds,
}

/// The drawable extent handed to the renderer.
#[derive(Clone, Copy, Debug, PartialEq, Eq, Structural)]
pub struct Extent {
    pub width: u32,
    pub height: u32,
    pub depth: u32,
}

/// A surface-local position in units of 1/256 pixel, the protocol's 24.8
/// fixed-point format.
#[derive(Clone, Copy, Debug, PartialEq, Eq, Structural)]
pub struct SurfacePoint {
    pub x: i32,
    pub y: i32,
}

/// A scroll distance in units of 1/256 pixel.
#[derive(Clone, Copy, Debug, PartialEq, Eq, Structural)]
pub struct ScrollDelta {
    pub x: i64,
    pub y: i64,
}

/// The size a toplevel configure resolves to: a zero in either dimension
/// means that the client chooses, and the client chooses the fallback.
pub open spec fn resolved_size(width: i32, height: i32) -> Size {
    if width == 0 || height == 0 {
        Size { width: FALLBACK_WIDTH, height: FALLBACK_HEIGHT }
    } else {
        Size { width, height }
    }
}

/// The geometry a window starts with.
pub open spec fn initial_bounds(requested: WindowBounds) -> Bounds {
    match requested {
        WindowBounds::Fixed(bounds) => bounds,
        _ => Bounds {
            origin: Point { x: 0, y: 0 },
            size: Size { width: PLACEHOLDER_EXTENT, height: PLACEHOLDER_EXTENT },
        },
    }
}

/// The renderer's extent for a window of the given size: each dimension
/// reinterpreted as unsigned, one layer deep.
pub open spec fn extent_of(size: Size) -> Extent {
    Extent { width: size.width as u32, height: size.height as u32, depth: 1 }
}

impl Point {
    /// The origin.
    pub fn origin() -> (p: Point)
        ensures
            p == (Point { x: 0, y: 0 }),
    {
        Point { x: 0, y: 0 }
    }
}

impl SurfacePoint {
    /// The surface's top-left corner.
    pub fn origin() -> (p: SurfacePoint)
        ensures
            p == (SurfacePoint { x: 0, y: 0 }),
    {
        SurfacePoint { x: 0, y: 0 }
    }
}

impl Size {
    /// Applies the sizing policy to the size a toplevel configure carries.
    pub fn resolve(width: i32, height: i32) -> (size: Size)
        ensures
            size == resolved_size(width, height),
            size.width != 0,
            size.height != 0,
    {
        if width == 0 || height == 0 {
            Size { width: FALLBACK_WIDTH, height: FALLBACK_HEIGHT }
        } else {
            Size { width, height }
        }
    }

    /// The extent the renderer draws into for this size.
    pub fn extent(&self) -> (extent: Extent)
        ensures
            extent == extent_of(*self),
    {
        Extent {
            width: #[verifier::truncate] (self.width as u32),
            height: #[verifier::truncate] (self.height as u32),
            depth: 1,
        }
    }
}

impl WindowBounds {
    /// The geometry a window with this request starts with.
    pub fn initial(&self) -> (bounds: Bounds)
        ensures
            bounds == initial_bounds(*self),
    {
        match self {
            WindowBounds::Fixed(bounds) => *bounds,
            _ => Bounds {
                origin: Point::origin(),
                size: Size { width: PLACEHOLDER_EXTENT, height: PLACEHOLDER_EXTENT },
            },
        }
    }
}

} // verus!
