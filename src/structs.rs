//! Geometry requests and results, in logical coordinates with a top-left
//! origin.
use vstd::prelude::*;

verus! {

#[derive(Clone, Copy, Debug, PartialEq, Eq, Structural)]
pub struct Point {
    pub x: i32,
    pub y: i32,
}

#[derive(Clone, Copy, Debug, PartialEq, Eq, Structural)]
pub struct Size {
    pub width: i32,
    pub height: i32,
}

#[derive(Clone, Copy, Debug, PartialEq, Eq, Structural)]
pub struct Rect {
    pub origin: Point,
    pub size: Size,
}

/// Which of two redundant values wins when a request gives both.
#[derive(Clone, Copy, Debug, PartialEq, Eq, Structural)]
pub enum GeometryPreference {
    PreferFrame,
    PreferContent,
}

#[derive(Clone, Copy, Debug, PartialEq, Eq, Structural)]
pub struct WindowGeometry {
    pub frame_origin: Option<Point>,
    pub frame_size: Option<Size>,
    pub content_origin: Option<Point>,
    pub content_size: Option<Size>,
    pub min_frame_size: Option<Size>,
    pub max_frame_size: Option<Size>,
    pub min_content_size: Option<Size>,
    pub max_content_size: Option<Size>,
}

#[derive(Clone, Copy, Debug, PartialEq, Eq, Structural)]
pub struct WindowGeometryRequest {
    pub geometry: WindowGeometry,
    pub preference: GeometryPreference,
}

/// Which fields of a geometry were applied, or are supported.
#[derive(Clone, Copy, Debug, PartialEq, Eq, Structural)]
pub struct WindowGeometryFlags {
    pub frame_origin: bool,
    pub frame_size: bool,
    pub content_origin: bool,
    pub content_size: bool,
    pub min_frame_size: bool,
    pub max_frame_size: bool,
    pub min_content_size: bool,
    pub max_content_size: bool,
}

/// `b` unless `a` is given, in which case nothing.
pub open spec fn unless<A, B>(a: Option<A>, b: Option<B>) -> Option<B> {
    if a.is_some() {
        None
    } else {
        b
    }
}

/// The request with every value that the preferred side makes redundant
/// removed.
pub open spec fn filtered(r: WindowGeometryRequest) -> WindowGeometry {
    let g = r.geometry;
    match r.preference {
        GeometryPreference::PreferFrame => WindowGeometry {
            content_origin: unless(g.frame_origin, g.content_origin),
            content_size: unless(g.frame_size, g.content_size),
            min_content_size: unless(g.min_frame_size, g.min_content_size),
            max_content_size: unless(g.max_frame_size, g.max_content_size),
            ..g
        },
        GeometryPreference::PreferContent => WindowGeometry {
            frame_origin: unless(g.content_origin, g.frame_origin),
            frame_size: unless(g.content_size, g.frame_size),
            min_frame_size: unless(g.min_content_size, g.min_frame_size),
            max_frame_size: unless(g.max_content_size, g.max_frame_size),
            ..g
        },
    }
}

impl WindowGeometryRequest {
    /// The geometry with redundant values removed: where both a frame and a
    /// content value are given for the same field, the preferred one stays.
    pub fn filtered_by_preference(self) -> (r: WindowGeometry)
        ensures
            r == filtered(self),
    {
        let mut geometry = self.geometry;
        match self.preference {
            GeometryPreference::PreferFrame => {
                if geometry.frame_origin.is_some() {
                    geometry.content_origin = None;
                }
                if geometry.frame_size.is_some() {
                    geometry.content_size = None;
                }
                if geometry.min_frame_size.is_some() {
                    geometry.min_content_size = None;
                }
                if geometry.max_frame_size.is_some() {
                    geometry.max_content_size = None;
                }
            },
            GeometryPreference::PreferContent => {
                if geometry.content_origin.is_some() {
                    geometry.frame_origin = None;
                }
                if geometry.content_size.is_some() {
                    geometry.frame_size = None;
                }
                if geometry.min_content_size.is_some() {
                    geometry.min_frame_size = None;
                }
                if geometry.max_content_size.is_some() {
                    geometry.max_frame_size = None;
                }
            },
        }
        geometry
    }
}

/// A request that gives both a frame and a content value for the same field
/// keeps only the preferred one: the other is discarded before
/// reconciliation, and the preferred one is kept unchanged.
pub proof fn lemma_preference_discards_redundant(r: WindowGeometryRequest)
    ensures
        r.preference == GeometryPreference::PreferFrame && r.geometry.frame_size.is_some()
            ==> filtered(r).content_size.is_none() && filtered(r).frame_size
            == r.geometry.frame_size,
        r.preference == GeometryPreference::PreferFrame && r.geometry.frame_origin.is_some()
            ==> filtered(r).content_origin.is_none() && filtered(r).frame_origin
            == r.geometry.frame_origin,
        r.preference == GeometryPreference::PreferContent && r.geometry.content_size.is_some()
            ==> filtered(r).frame_size.is_none() && filtered(r).content_size
            == r.geometry.content_size,
        r.preference == GeometryPreference::PreferContent && r.geometry.content_origin.is_some()
            ==> filtered(r).frame_origin.is_none() && filtered(r).content_origin
            == r.geometry.content_origin,
{
}

impl Default for WindowGeometry {
    fn default() -> (r: WindowGeometry)
        ensures
            r.frame_origin.is_none() && r.frame_size.is_none() && r.content_origin.is_none()
                && r.content_size.is_none() && r.min_frame_size.is_none()
                && r.max_frame_size.is_none() && r.min_content_size.is_none()
                && r.max_content_size.is_none(),
    {
        WindowGeometry {
            frame_origin: None,
            frame_size: None,
            content_origin: None,
            content_size: None,
            min_frame_size: None,
            max_frame_size: None,
            min_content_size: None,
            max_content_size: None,
        }
    }
}

impl Default for WindowGeometryFlags {
    fn default() -> (r: WindowGeometryFlags)
        ensures
            r == (WindowGeometryFlags {
                frame_origin: false,
                frame_size: false,
                content_origin: false,
                content_size: false,
                min_frame_size: false,
                max_frame_size: false,
                min_content_size: false,
                max_content_size: false,
            }),
    {
        WindowGeometryFlags {
            frame_origin: false,
            frame_size: false,
            content_origin: false,
            content_size: false,
            min_frame_size: false,
            max_frame_size: false,
            min_content_size: false,
            max_content_size: false,
        }
    }
}

/// How a window's frame is drawn.
#[derive(Clone, Copy, Debug, PartialEq, Eq, Structural)]
pub enum WindowFrame {
    Regular,
    NoTitle,
    NoFrame,
}

impl Default for WindowFrame {
    fn default() -> (r: WindowFrame)
        ensures
            r == WindowFrame::Regular,
    {
        WindowFrame::Regular
    }
}

/// The decorations and abilities of a window.
#[derive(Clone, Copy, Debug, PartialEq, Eq, Structural)]
pub struct WindowStyle {
    pub frame: WindowFrame,
    pub can_resize: bool,
    pub can_close: bool,
    pub can_minimize: bool,
    pub can_maximize: bool,
    pub can_full_screen: bool,
}

impl Default for WindowStyle {
    fn default() -> (r: WindowStyle)
        ensures
            r == (WindowStyle {
                frame: WindowFrame::Regular,
                can_resize: false,
                can_close: false,
                can_minimize: false,
                can_maximize: false,
                can_full_screen: false,
            }),
    {
        WindowStyle {
            frame: WindowFrame::Regular,
            can_resize: false,
            can_close: false,
            can_minimize: false,
            can_maximize: false,
            can_full_screen: false,
        }
    }
}

/// A request to show menu `handle` as a popup at `position`.
#[derive(Clone, Copy, Debug, PartialEq, Eq, Structural)]
pub struct PopupMenuRequest {
    pub handle: crate::handle::MenuHandle,
    pub position: Point,
    /// While the popup is open this rect keeps receiving mouse events (used
    /// for a menu bar).
    pub tracking_rect: Option<Rect>,
}

} // verus!
