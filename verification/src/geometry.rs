//! Rectangles of the output and of its windows, and how a window's rectangle
//! is brought inside a frame.
use vstd::prelude::*;

verus! {

/// Refresh rate announced for the output, in millihertz.
pub const REFRESH_MILLIHERTZ: i32 = 60_000;

/// Size of the backend's drawing surface, as the backend reports it.
#[derive(Clone, Copy, Debug, PartialEq, Eq, Structural)]
pub struct FrameSize {
    pub w: i32,
    pub h: i32,
}

/// A display mode of the output.
#[derive(Clone, Copy, Debug, PartialEq, Eq, Structural)]
pub struct OutputMode {
    pub size: FrameSize,
    pub refresh: i32,
}

/// A rectangle in signed coordinates: a window's mapped geometry, the region
/// handed to pixel copy-out, or a damage rectangle.
#[derive(Clone, Copy, Debug, PartialEq, Eq, Structural)]
pub struct Rect {
    pub x: i32,
    pub y: i32,
    pub w: i32,
    pub h: i32,
}

/// A rectangle that lies inside a frame of known width and height.
#[derive(Clone, Copy, Debug, PartialEq, Eq, Structural)]
pub struct FrameRegion {
    pub x: u32,
    pub y: u32,
    pub w: u32,
    pub h: u32,
}

/// A signed 32-bit extent read as an unsigned one: a negative extent stands
/// for the value that its bit pattern has as an unsigned number.
pub open spec fn unsigned_extent(extent: int) -> int {
    if extent >= 0 {
        extent
    } else {
        extent + 0x1_0000_0000
    }
}

/// An offset brought into `0 ..= bound`.
pub open spec fn clamp_offset(offset: int, bound: int) -> int {
    if offset <= 0 {
        0
    } else if offset >= bound {
        bound
    } else {
        offset
    }
}

/// The extent that is left of `extent` once the offset is clamped and nothing
/// may reach past `bound`.
pub open spec fn clamp_extent(offset: int, extent: int, bound: int) -> int {
    let room = bound - clamp_offset(offset, bound);
    let wanted = unsigned_extent(extent);
    if wanted <= room {
        wanted
    } else {
        room
    }
}

/// The rectangle `rect` clamped to a frame of `width` by `height` pixels.
pub open spec fn clamped(rect: Rect, width: u32, height: u32) -> FrameRegion {
    FrameRegion {
        x: clamp_offset(rect.x as int, width as int) as u32,
        y: clamp_offset(rect.y as int, height as int) as u32,
        w: clamp_extent(rect.x as int, rect.w as int, width as int) as u32,
        h: clamp_extent(rect.y as int, rect.h as int, height as int) as u32,
    }
}

/// The first entry of `windows`, which lists the geometry lookup of every
/// visible window in enumeration order.
pub open spec fn first_window(windows: Seq<Option<Rect>>) -> Option<Rect> {
    if windows.len() > 0 {
        windows[0]
    } else {
        None
    }
}

impl FrameSize {
    /// The whole surface as a rectangle at the origin.
    pub fn full_region(&self) -> (r: Rect)
        ensures
            r == (Rect { x: 0, y: 0, w: self.w, h: self.h }),
    {
        Rect { x: 0, y: 0, w: self.w, h: self.h }
    }

    /// The mode announced for a surface of this size.
    pub fn mode(&self) -> (m: OutputMode)
        ensures
            m == (OutputMode { size: *self, refresh: 60_000 }),
    {
        OutputMode { size: *self, refresh: REFRESH_MILLIHERTZ }
    }
}

impl FrameRegion {
    /// Whether the region lies inside a frame of `width` by `height` pixels.
    pub open spec fn fits(&self, width: int, height: int) -> bool {
        self.x + self.w <= width && self.y + self.h <= height
    }

    /// Whether the region holds no pixel.
    pub fn is_empty(&self) -> (b: bool)
        ensures
            b == (self.w == 0 || self.h == 0),
    {
        self.w == 0 || self.h == 0
    }
}

fn clamp_axis(offset: i32, extent: i32, bound: u32) -> (r: (u32, u32))
    ensures
        r.0 == clamp_offset(offset as int, bound as int),
        r.1 == clamp_extent(offset as int, extent as int, bound as int),
        r.0 + r.1 <= bound,
{
    let start: u32 = if offset <= 0 {
        0
    } else if offset as u32 >= bound {
        bound
    } else {
        offset as u32
    };
    let room: u32 = bound - start;
    let wanted: i64 = if extent >= 0 {
        extent as i64
    } else {
        extent as i64 + 0x1_0000_0000
    };
    let len: u32 = if wanted <= room as i64 {
        wanted as u32
    } else {
        room
    };
    (start, len)
}

impl Rect {
    /// Clamps the rectangle to a frame of `width` by `height` pixels: the
    /// origin is moved into the frame, and the extent is cut where it would
    /// reach past the far edge. The result always lies inside the frame; it
    /// is empty where the rectangle misses the frame.
    pub fn clamp_to(&self, width: u32, height: u32) -> (r: FrameRegion)
        ensures
            r == clamped(*self, width, height),
            r.fits(width as int, height as int),
    {
        let (x, w) = clamp_axis(self.x, self.w, width);
        let (y, h) = clamp_axis(self.y, self.h, height);
        FrameRegion { x, y, w, h }
    }
}

/// Picks the window that a capture is cropped to: the first one enumerated.
/// No window, or a first window whose geometry is unknown, gives no target.
pub fn crop_target(windows: &Vec<Option<Rect>>) -> (target: Option<Rect>)
    ensures
        target == first_window(windows@),
{
    if windows.len() > 0 {
        windows[0]
    } else {
        None
    }
}

/// A rectangle that starts inside the frame and has a non-negative extent
/// keeps its origin, and its extent is cut to what the frame leaves.
pub proof fn lemma_clamp_inside(rect: Rect, width: u32, height: u32)
    requires
        0 <= rect.x <= width,
        0 <= rect.y <= height,
        0 <= rect.w,
        0 <= rect.h,
    ensures
        clamped(rect, width, height).x == rect.x,
        clamped(rect, width, height).y == rect.y,
        clamped(rect, width, height).w == if rect.x + rect.w <= width {
            rect.w as int
        } else {
            width - rect.x
        },
        clamped(rect, width, height).h == if rect.y + rect.h <= height {
            rect.h as int
        } else {
            height - rect.y
        },
{
}

/// Whatever the rectangle, its clamped form lies inside the frame, and
/// clamping fails on no input.
pub proof fn lemma_clamp_fits(rect: Rect, width: u32, height: u32)
    ensures
        clamped(rect, width, height).fits(width as int, height as int),
{
}

/// A rectangle that lies inside the frame is left as it is.
pub proof fn lemma_clamp_keeps_inner(rect: Rect, width: u32, height: u32)
    requires
        0 <= rect.x,
        0 <= rect.y,
        0 <= rect.w,
        0 <= rect.h,
        rect.x + rect.w <= width,
        rect.y + rect.h <= height,
    ensures
        clamped(rect, width, height) == (FrameRegion {
            x: rect.x as u32,
            y: rect.y as u32,
            w: rect.w as u32,
            h: rect.h as u32,
        }),
{
}

} // verus!
