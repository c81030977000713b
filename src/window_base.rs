//! Geometry reconciliation of one window against its native adapter.
use vstd::prelude::*;
use crate::error::PlatformError;
use crate::structs::{
    GeometryPreference, Point, Rect, Size, WindowGeometry, WindowGeometryFlags,
    WindowGeometryRequest, filtered,
};

verus! {

/// The native side of a window, in logical coordinates: the adapter converts
/// to physical units with the window's current scale factor.
pub trait NativeWindowAdapter {
    /// The current frame rect.
    fn frame_rect(&self) -> Result<Rect, PlatformError>;

    /// The content rect that the window has for the given frame rect.
    fn content_rect_for_frame_rect(&self, frame: &Rect) -> Result<Rect, PlatformError>;

    /// Moves and/or resizes the frame; `None` leaves that part as it is.
    fn set_frame(&mut self, origin: Option<Point>, size: Option<Size>) -> Result<
        (),
        PlatformError,
    >;
}

/// `v` clamped into the range of `i32`.
pub open spec fn clamp_i32(v: int) -> i32 {
    if v < i32::MIN {
        i32::MIN
    } else if v > i32::MAX {
        i32::MAX
    } else {
        v as i32
    }
}

fn clamp_to_i32(v: i64) -> (r: i32)
    ensures
        r == clamp_i32(v as int),
{
    if v < i32::MIN as i64 {
        i32::MIN
    } else if v > i32::MAX as i64 {
        i32::MAX
    } else {
        v as i32
    }
}

/// `a + b` when `add`, else `a - b`, per axis and clamped into `i32`.
fn translate(a: &Point, b: &Point, add: bool) -> (r: Point)
    ensures
        add ==> r == (Point { x: clamp_i32(a.x + b.x), y: clamp_i32(a.y + b.y) }),
        !add ==> r == (Point { x: clamp_i32(a.x - b.x), y: clamp_i32(a.y - b.y) }),
{
    if add {
        Point {
            x: clamp_to_i32(a.x as i64 + b.x as i64),
            y: clamp_to_i32(a.y as i64 + b.y as i64),
        }
    } else {
        Point {
            x: clamp_to_i32(a.x as i64 - b.x as i64),
            y: clamp_to_i32(a.y as i64 - b.y as i64),
        }
    }
}

/// Where a frame must go and how large it must be to satisfy a geometry.
#[derive(Clone, Copy, Debug, PartialEq, Eq, Structural)]
pub struct BoundsPlan {
    pub origin: Option<Point>,
    pub size: Option<Size>,
}

/// The frame origin that puts the content origin at `p`, given the current
/// frame and content rects.
pub open spec fn frame_origin_for_content(p: Point, frame: Rect, content: Rect) -> Point {
    Point {
        x: clamp_i32(p.x + frame.origin.x - content.origin.x),
        y: clamp_i32(p.y + frame.origin.y - content.origin.y),
    }
}

/// The frame size that gives content size `s`, given the current frame and
/// content rects.
pub open spec fn frame_size_for_content(s: Size, frame: Rect, content: Rect) -> Size {
    Size {
        width: clamp_i32(s.width + frame.size.width - content.size.width),
        height: clamp_i32(s.height + frame.size.height - content.size.height),
    }
}

/// The frame bounds for geometry `g` (already filtered by preference): a
/// content value is turned into a frame value by the current difference
/// between frame and content, and wins over a frame value.
pub open spec fn bounds_plan(g: WindowGeometry, frame: Rect, content: Rect) -> BoundsPlan {
    BoundsPlan {
        origin: if g.content_origin.is_some() {
            Some(frame_origin_for_content(g.content_origin.unwrap(), frame, content))
        } else {
            g.frame_origin
        },
        size: if g.content_size.is_some() {
            Some(frame_size_for_content(g.content_size.unwrap(), frame, content))
        } else {
            g.frame_size
        },
    }
}

/// Whether the live rects show every requested bounds value.
pub open spec fn bounds_converged(g: WindowGeometry, frame: Rect, content: Rect) -> bool {
    &&& (g.frame_origin.is_some() ==> frame.origin == g.frame_origin.unwrap())
    &&& (g.frame_size.is_some() ==> frame.size == g.frame_size.unwrap())
    &&& (g.content_origin.is_some() ==> content.origin == g.content_origin.unwrap())
    &&& (g.content_size.is_some() ==> content.size == g.content_size.unwrap())
}

pub open spec fn has_bounds(g: WindowGeometry) -> bool {
    g.frame_origin.is_some() || g.frame_size.is_some() || g.content_origin.is_some()
        || g.content_size.is_some()
}

/// The flags that applying geometry `g` reports: each value given is applied.
pub open spec fn applied_flags(g: WindowGeometry) -> WindowGeometryFlags {
    WindowGeometryFlags {
        frame_origin: g.frame_origin.is_some(),
        frame_size: g.frame_size.is_some(),
        content_origin: g.content_origin.is_some(),
        content_size: g.content_size.is_some(),
        min_frame_size: g.min_frame_size.is_some(),
        max_frame_size: g.max_frame_size.is_some(),
        min_content_size: g.min_content_size.is_some(),
        max_content_size: g.max_content_size.is_some(),
    }
}

/// Computes the frame bounds for a geometry from the current rects.
pub fn plan_bounds(g: &WindowGeometry, frame: &Rect, content: &Rect) -> (r: BoundsPlan)
    ensures
        r == bounds_plan(*g, *frame, *content),
{
    let origin = match g.content_origin {
        Some(p) => Some(
            Point {
                x: clamp_to_i32(p.x as i64 + frame.origin.x as i64 - content.origin.x as i64),
                y: clamp_to_i32(p.y as i64 + frame.origin.y as i64 - content.origin.y as i64),
            },
        ),
        None => g.frame_origin,
    };
    let size = match g.content_size {
        Some(s) => Some(
            Size {
                width: clamp_to_i32(
                    s.width as i64 + frame.size.width as i64 - content.size.width as i64,
                ),
                height: clamp_to_i32(
                    s.height as i64 + frame.size.height as i64 - content.size.height as i64,
                ),
            },
        ),
        None => g.frame_size,
    };
    BoundsPlan { origin, size }
}

fn same_point(a: &Point, b: &Point) -> (r: bool)
    ensures
        r == (*a == *b),
{
    a.x == b.x && a.y == b.y
}

fn same_size(a: &Size, b: &Size) -> (r: bool)
    ensures
        r == (*a == *b),
{
    a.width == b.width && a.height == b.height
}

/// Whether the live rects show every requested bounds value.
pub fn has_converged(g: &WindowGeometry, frame: &Rect, content: &Rect) -> (r: bool)
    ensures
        r == bounds_converged(*g, *frame, *content),
{
    let fo = match g.frame_origin {
        Some(p) => same_point(&frame.origin, &p),
        None => true,
    };
    let fs = match g.frame_size {
        Some(s) => same_size(&frame.size, &s),
        None => true,
    };
    let co = match g.content_origin {
        Some(p) => same_point(&content.origin, &p),
        None => true,
    };
    let cs = match g.content_size {
        Some(s) => same_size(&content.size, &s),
        None => true,
    };
    fo && fs && co && cs
}

/// `v` clamped into `[lo, hi]`; `lo` wins when the range is empty.
pub open spec fn clamp_range(v: int, lo: int, hi: int) -> int {
    if v < lo {
        lo
    } else if v > hi {
        if hi < lo {
            lo
        } else {
            hi
        }
    } else {
        v
    }
}

pub open spec fn max_int(a: int, b: int) -> int {
    if a >= b {
        a
    } else {
        b
    }
}

pub open spec fn min_int(a: int, b: int) -> int {
    if a <= b {
        a
    } else {
        b
    }
}

fn clamp_i64(v: i64, lo: i64, hi: i64) -> (r: i64)
    ensures
        r == clamp_range(v as int, lo as int, hi as int),
{
    if v < lo {
        lo
    } else if v > hi {
        if hi < lo {
            lo
        } else {
            hi
        }
    } else {
        v
    }
}

fn max_i64(a: i64, b: i64) -> (r: i64)
    ensures
        r == max_int(a as int, b as int),
{
    if a >= b {
        a
    } else {
        b
    }
}

fn min_i64(a: i64, b: i64) -> (r: i64)
    ensures
        r == min_int(a as int, b as int),
{
    if a <= b {
        a
    } else {
        b
    }
}

/// The geometry limits kept for one window.
pub struct WindowBaseState {
    pub min_frame_size: Size,
    pub max_frame_size: Size,
    pub min_content_size: Size,
    pub max_content_size: Size,
    /// Every frame request handed to the native adapter, oldest first.
    pub frame_requests: Ghost<Seq<BoundsPlan>>,
}

/// The geometry that a request applies: the request filtered by its
/// preference, without origins for a modal window, whose position the
/// operating system controls.
pub open spec fn geometry_to_apply(request: WindowGeometryRequest, modal: bool) -> WindowGeometry {
    let g = filtered(request);
    if modal {
        WindowGeometry { frame_origin: None, content_origin: None, ..g }
    } else {
        g
    }
}

/// `p` is the plan for geometry `g` from some live measurement.
pub open spec fn planned_from(g: WindowGeometry, p: BoundsPlan) -> bool {
    exists|frame: Rect, content: Rect| p == bounds_plan(g, frame, content)
}

/// The requests of `now` made after those of `before`, each planned for `g`.
pub open spec fn requests_since(before: Seq<BoundsPlan>, now: Seq<BoundsPlan>, g: WindowGeometry) -> bool {
    &&& before.len() <= now.len()
    &&& now.subrange(0, before.len() as int) == before
    &&& forall|i: int| before.len() <= i < now.len() ==> planned_from(g, #[trigger] now[i])
}

/// The largest size a window may take when no maximum was set.
pub const LARGE_SIZE: i32 = 65536;

impl WindowBaseState {
    pub fn new() -> (r: WindowBaseState)
        ensures
            r.min_frame_size == (Size { width: 0, height: 0 }),
            r.max_frame_size == (Size { width: LARGE_SIZE, height: LARGE_SIZE }),
            r.min_content_size == (Size { width: 0, height: 0 }),
            r.max_content_size == (Size { width: LARGE_SIZE, height: LARGE_SIZE }),
    {
        WindowBaseState {
            min_frame_size: Size { width: 0, height: 0 },
            max_frame_size: Size { width: LARGE_SIZE, height: LARGE_SIZE },
            min_content_size: Size { width: 0, height: 0 },
            max_content_size: Size { width: LARGE_SIZE, height: LARGE_SIZE },
            frame_requests: Ghost(Seq::empty()),
        }
    }

    /// Every field this window supports.
    pub fn supported_geometry(&self) -> (r: WindowGeometryFlags)
        ensures
            r == (WindowGeometryFlags {
                frame_origin: true,
                frame_size: true,
                content_origin: true,
                content_size: true,
                min_frame_size: true,
                max_frame_size: true,
                min_content_size: true,
                max_content_size: true,
            }),
    {
        WindowGeometryFlags {
            frame_origin: true,
            frame_size: true,
            content_origin: true,
            content_size: true,
            min_frame_size: true,
            max_frame_size: true,
            min_content_size: true,
            max_content_size: true,
        }
    }

    /// The live geometry: frame and content rects from the adapter, and the
    /// limits kept here.
    pub fn get_geometry<A: NativeWindowAdapter>(&self, adapter: &A) -> (r: Result<
        WindowGeometry,
        PlatformError,
    >)
        ensures
            r.is_ok() ==> ({
                let g = r.unwrap();
                &&& g.frame_origin.is_some() && g.frame_size.is_some()
                &&& g.content_origin.is_some() && g.content_size.is_some()
                &&& g.min_frame_size == Some(self.min_frame_size)
                &&& g.max_frame_size == Some(self.max_frame_size)
                &&& g.min_content_size == Some(self.min_content_size)
                &&& g.max_content_size == Some(self.max_content_size)
            }),
    {
        let frame = adapter.frame_rect()?;
        let content = adapter.content_rect_for_frame_rect(&frame)?;
        Ok(
            WindowGeometry {
                frame_origin: Some(frame.origin),
                frame_size: Some(frame.size),
                content_origin: Some(content.origin),
                content_size: Some(content.size),
                min_frame_size: Some(self.min_frame_size),
                max_frame_size: Some(self.max_frame_size),
                min_content_size: Some(self.min_content_size),
                max_content_size: Some(self.max_content_size),
            },
        )
    }

    /// One reconciliation pass: measures the live rects and hands the
    /// bounds planned from them to the adapter.
    fn set_bounds_geometry<A: NativeWindowAdapter>(
        &mut self,
        g: &WindowGeometry,
        adapter: &mut A,
    ) -> (r: Result<(), PlatformError>)
        ensures
            final(self).min_frame_size == old(self).min_frame_size,
            final(self).max_frame_size == old(self).max_frame_size,
            final(self).min_content_size == old(self).min_content_size,
            final(self).max_content_size == old(self).max_content_size,
            requests_since(old(self).frame_requests@, final(self).frame_requests@, *g),
            final(self).frame_requests@.len() <= old(self).frame_requests@.len() + 1,
            r.is_ok() ==> final(self).frame_requests@.len() == old(self).frame_requests@.len() + 1,
    {
        proof {
            assert(self.frame_requests@.subrange(0, self.frame_requests@.len() as int)
                =~= self.frame_requests@);
        }
        let frame = adapter.frame_rect()?;
        let content = adapter.content_rect_for_frame_rect(&frame)?;
        let plan = plan_bounds(g, &frame, &content);
        let ghost before = self.frame_requests@;
        self.frame_requests = Ghost(self.frame_requests@.push(plan));
        proof {
            assert(self.frame_requests@.subrange(0, before.len() as int) =~= before);
            assert(planned_from(*g, self.frame_requests@[before.len() as int]));
        }
        adapter.set_frame(plan.origin, plan.size)
    }

    /// Applies a geometry request to a window, `modal` telling whether it is
    /// shown modally. Redundant values are dropped per the request's
    /// preference, and a modal window's origins are left to the operating
    /// system. The bounds are planned from live measurements and handed to
    /// the adapter; if the live rects then differ from what was asked, they
    /// are planned from fresh measurements and handed over once more, and
    /// never a third time. The limits are kept here. Errors come from the
    /// adapter only, and leave the limits as they were.
    pub fn set_geometry<A: NativeWindowAdapter>(
        &mut self,
        request: WindowGeometryRequest,
        modal: bool,
        adapter: &mut A,
    ) -> (r: Result<WindowGeometryFlags, PlatformError>)
        ensures
            r.is_ok() ==> r.unwrap() == applied_flags(geometry_to_apply(request, modal)),
            modal && r.is_ok() ==> !r.unwrap().frame_origin && !r.unwrap().content_origin,
            !has_bounds(geometry_to_apply(request, modal)) ==> r.is_ok()
                && final(self).frame_requests@ == old(self).frame_requests@,
            requests_since(
                old(self).frame_requests@,
                final(self).frame_requests@,
                geometry_to_apply(request, modal),
            ),
            final(self).frame_requests@.len() <= old(self).frame_requests@.len() + 2,
            has_bounds(geometry_to_apply(request, modal)) && r.is_ok()
                ==> final(self).frame_requests@.len() >= old(self).frame_requests@.len() + 1,
            r.is_err() ==> final(self).min_frame_size == old(self).min_frame_size
                && final(self).max_frame_size == old(self).max_frame_size
                && final(self).min_content_size == old(self).min_content_size
                && final(self).max_content_size == old(self).max_content_size,
            r.is_ok() ==> ({
                let g = geometry_to_apply(request, modal);
                &&& final(self).min_frame_size == (if g.min_frame_size.is_some() {
                    g.min_frame_size.unwrap()
                } else {
                    old(self).min_frame_size
                })
                &&& final(self).max_frame_size == (if g.max_frame_size.is_some() {
                    g.max_frame_size.unwrap()
                } else {
                    old(self).max_frame_size
                })
                &&& final(self).min_content_size == (if g.min_content_size.is_some() {
                    g.min_content_size.unwrap()
                } else {
                    old(self).min_content_size
                })
                &&& final(self).max_content_size == (if g.max_content_size.is_some() {
                    g.max_content_size.unwrap()
                } else {
                    old(self).max_content_size
                })
            }),
    {
        let mut g = request.filtered_by_preference();
        if modal {
            g.frame_origin = None;
            g.content_origin = None;
        }
        assert(g == geometry_to_apply(request, modal));
        let ghost start = self.frame_requests@;
        proof {
            assert(start.subrange(0, start.len() as int) =~= start);
        }
        if g.frame_origin.is_some() || g.frame_size.is_some() || g.content_origin.is_some()
            || g.content_size.is_some() {
            self.set_bounds_geometry(&g, adapter)?;
            let ghost first = self.frame_requests@;
            let frame = adapter.frame_rect()?;
            let content = adapter.content_rect_for_frame_rect(&frame)?;
            if !has_converged(&g, &frame, &content) {
                let second = self.set_bounds_geometry(&g, adapter);
                proof {
                    let now = self.frame_requests@;
                    assert(now.subrange(0, first.len() as int) == first);
                    assert(now.subrange(0, start.len() as int) =~= first.subrange(0, start.len() as int));
                    assert forall|i: int| start.len() <= i < now.len() implies planned_from(g, #[trigger] now[i]) by {
                        if i < first.len() {
                            assert(now[i] == now.subrange(0, first.len() as int)[i]);
                            assert(first[i] == now[i]);
                        }
                    }
                }
                second?;
            }
        }
        if let Some(size) = g.min_frame_size {
            self.min_frame_size = size;
        }
        if let Some(size) = g.max_frame_size {
            self.max_frame_size = size;
        }
        if let Some(size) = g.min_content_size {
            self.min_content_size = size;
        }
        if let Some(size) = g.max_content_size {
            self.max_content_size = size;
        }
        Ok(
            WindowGeometryFlags {
                frame_origin: g.frame_origin.is_some(),
                frame_size: g.frame_size.is_some(),
                content_origin: g.content_origin.is_some(),
                content_size: g.content_size.is_some(),
                min_frame_size: g.min_frame_size.is_some(),
                max_frame_size: g.max_frame_size.is_some(),
                min_content_size: g.min_content_size.is_some(),
                max_content_size: g.max_content_size.is_some(),
            },
        )
    }

    /// The size a window takes when resized to `proposed`: per axis at least
    /// the minimum frame size and the minimum content size (turned into a
    /// frame size by the current frame/content difference), at most both
    /// maxima; the minimum wins when they conflict.
    pub fn adjust_window_size(&self, frame: &Rect, content: &Rect, proposed: Size) -> (r: Size)
        ensures
            r.width == clamp_i32(
                clamp_range(
                    proposed.width as int,
                    max_int(
                        self.min_content_size.width + frame.size.width - content.size.width,
                        self.min_frame_size.width as int,
                    ),
                    min_int(
                        self.max_content_size.width + frame.size.width - content.size.width,
                        self.max_frame_size.width as int,
                    ),
                ),
            ),
            r.height == clamp_i32(
                clamp_range(
                    proposed.height as int,
                    max_int(
                        self.min_content_size.height + frame.size.height - content.size.height,
                        self.min_frame_size.height as int,
                    ),
                    min_int(
                        self.max_content_size.height + frame.size.height - content.size.height,
                        self.max_frame_size.height as int,
                    ),
                ),
            ),
    {
        let dw = frame.size.width as i64 - content.size.width as i64;
        let dh = frame.size.height as i64 - content.size.height as i64;
        let width = clamp_i64(
            proposed.width as i64,
            max_i64(self.min_content_size.width as i64 + dw, self.min_frame_size.width as i64),
            min_i64(self.max_content_size.width as i64 + dw, self.max_frame_size.width as i64),
        );
        let height = clamp_i64(
            proposed.height as i64,
            max_i64(self.min_content_size.height as i64 + dh, self.min_frame_size.height as i64),
            min_i64(self.max_content_size.height as i64 + dh, self.max_frame_size.height as i64),
        );
        Size { width: clamp_to_i32(width), height: clamp_to_i32(height) }
    }

    /// The screen position of `offset`, given relative to the content
    /// area `content` of the window.
    pub fn local_to_global(&self, content: &Rect, offset: &Point) -> (r: Point)
        ensures
            r == (Point {
                x: clamp_i32(content.origin.x + offset.x),
                y: clamp_i32(content.origin.y + offset.y),
            }),
    {
        translate(&content.origin, offset, true)
    }

    /// The position relative to the content area `content` of the window of
    /// screen position `p`.
    pub fn global_to_local(&self, content: &Rect, p: &Point) -> (r: Point)
        ensures
            r == (Point { x: clamp_i32(p.x - content.origin.x), y: clamp_i32(p.y - content.origin.y) }),
    {
        translate(p, &content.origin, false)
    }
}

/// When a request prefers the frame and gives a frame size, every size
/// handed to the native side is that frame size: a content size given as
/// well was discarded before reconciliation. The same holds for the
/// content size when the request prefers the content.
pub proof fn lemma_preferred_size_reaches_native(
    request: WindowGeometryRequest,
    modal: bool,
    p: BoundsPlan,
)
    requires
        planned_from(geometry_to_apply(request, modal), p),
    ensures
        request.preference == GeometryPreference::PreferFrame && request.geometry.frame_size.is_some()
            ==> p.size == request.geometry.frame_size,
        request.preference == GeometryPreference::PreferContent && request.geometry.content_size.is_some()
            ==> exists|frame: Rect, content: Rect|
            p.size == Some(frame_size_for_content(request.geometry.content_size.unwrap(), frame, content)),
{
    let (frame, content) = choose|frame: Rect, content: Rect|
        p == bounds_plan(geometry_to_apply(request, modal), frame, content);
    assert(p == bounds_plan(geometry_to_apply(request, modal), frame, content));
}

} // verus!
