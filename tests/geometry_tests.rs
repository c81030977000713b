use nanoshell::error::PlatformError;
use nanoshell::structs::{
    GeometryPreference, Point, Rect, Size, WindowGeometry, WindowGeometryFlags,
    WindowGeometryRequest,
};
use nanoshell::window_base::{
    has_converged, plan_bounds, BoundsPlan, NativeWindowAdapter, WindowBaseState,
};

fn p(x: i32, y: i32) -> Point {
    Point { x, y }
}

fn s(width: i32, height: i32) -> Size {
    Size { width, height }
}

fn both_sizes(preference: GeometryPreference) -> WindowGeometryRequest {
    let mut g = WindowGeometry::default();
    g.frame_size = Some(s(100, 100));
    g.content_size = Some(s(90, 80));
    g.frame_origin = Some(p(1, 2));
    g.min_content_size = Some(s(10, 10));
    WindowGeometryRequest { geometry: g, preference }
}

#[test]
fn prefer_frame_discards_content() {
    let g = both_sizes(GeometryPreference::PreferFrame).filtered_by_preference();
    assert_eq!(g.frame_size, Some(s(100, 100)));
    assert_eq!(g.content_size, None);
    assert_eq!(g.frame_origin, Some(p(1, 2)));
    assert_eq!(g.min_content_size, Some(s(10, 10)));
}

#[test]
fn prefer_content_discards_frame() {
    let g = both_sizes(GeometryPreference::PreferContent).filtered_by_preference();
    assert_eq!(g.frame_size, None);
    assert_eq!(g.content_size, Some(s(90, 80)));
    assert_eq!(g.frame_origin, Some(p(1, 2)));
}

#[test]
fn plan_turns_content_into_frame() {
    let frame = Rect { origin: p(10, 10), size: s(200, 150) };
    let content = Rect { origin: p(12, 40), size: s(196, 118) };
    let mut g = WindowGeometry::default();
    g.content_origin = Some(p(100, 100));
    g.content_size = Some(s(300, 200));
    let plan = plan_bounds(&g, &frame, &content);
    assert_eq!(plan, BoundsPlan { origin: Some(p(98, 70)), size: Some(s(304, 232)) });
    let far = Rect { origin: p(i32::MAX, 0), size: s(0, 0) };
    let mut g2 = WindowGeometry::default();
    g2.content_origin = Some(p(i32::MAX, 0));
    let clamped = plan_bounds(&g2, &far, &Rect { origin: p(0, 0), size: s(0, 0) });
    assert_eq!(clamped.origin, Some(p(i32::MAX, 0)));
}

#[test]
fn convergence_check() {
    let frame = Rect { origin: p(0, 0), size: s(10, 10) };
    let content = Rect { origin: p(1, 1), size: s(8, 8) };
    let mut g = WindowGeometry::default();
    g.content_size = Some(s(8, 8));
    assert!(has_converged(&g, &frame, &content));
    g.frame_origin = Some(p(5, 5));
    assert!(!has_converged(&g, &frame, &content));
}

/// A native window with a fixed border that clamps its width to `max_width`
/// and counts the frames it was given.
struct FakeWindow {
    frame: Rect,
    max_width: i32,
    set_calls: u32,
    fail: bool,
}

impl NativeWindowAdapter for FakeWindow {
    fn frame_rect(&self) -> Result<Rect, PlatformError> {
        if self.fail {
            return Err(PlatformError::HResult(5));
        }
        Ok(self.frame)
    }

    fn content_rect_for_frame_rect(&self, frame: &Rect) -> Result<Rect, PlatformError> {
        Ok(Rect {
            origin: p(frame.origin.x + 1, frame.origin.y + 20),
            size: s(frame.size.width - 2, frame.size.height - 21),
        })
    }

    fn set_frame(&mut self, origin: Option<Point>, size: Option<Size>) -> Result<(), PlatformError> {
        self.set_calls += 1;
        if let Some(o) = origin {
            self.frame.origin = o;
        }
        if let Some(sz) = size {
            self.frame.size = s(sz.width.min(self.max_width), sz.height);
        }
        Ok(())
    }
}

#[test]
fn set_geometry_applies_content_size() {
    let mut w = FakeWindow { frame: Rect { origin: p(0, 0), size: s(100, 100) }, max_width: 1000, set_calls: 0, fail: false };
    let mut state = WindowBaseState::new();
    let mut g = WindowGeometry::default();
    g.content_size = Some(s(200, 100));
    g.max_frame_size = Some(s(500, 500));
    let flags = state
        .set_geometry(WindowGeometryRequest { geometry: g, preference: GeometryPreference::PreferContent }, false, &mut w)
        .unwrap();
    assert_eq!(w.frame.size, s(202, 121));
    assert_eq!(w.set_calls, 1);
    assert!(flags.content_size && flags.max_frame_size);
    assert!(!flags.frame_size && !flags.frame_origin);
    assert_eq!(state.max_frame_size, s(500, 500));
    assert_eq!(state.min_frame_size, s(0, 0));
}

#[test]
fn set_geometry_retries_once_when_clamped() {
    let mut w = FakeWindow { frame: Rect { origin: p(0, 0), size: s(100, 100) }, max_width: 150, set_calls: 0, fail: false };
    let mut state = WindowBaseState::new();
    let mut g = WindowGeometry::default();
    g.content_size = Some(s(200, 100));
    state
        .set_geometry(WindowGeometryRequest { geometry: g, preference: GeometryPreference::PreferFrame }, false, &mut w)
        .unwrap();
    assert_eq!(w.set_calls, 2);
    assert_eq!(w.frame.size, s(150, 121));
}

#[test]
fn set_geometry_reports_adapter_errors() {
    let mut w = FakeWindow { frame: Rect { origin: p(0, 0), size: s(100, 100) }, max_width: 150, set_calls: 0, fail: true };
    let mut state = WindowBaseState::new();
    let mut g = WindowGeometry::default();
    g.frame_origin = Some(p(3, 3));
    let r = state.set_geometry(WindowGeometryRequest { geometry: g, preference: GeometryPreference::PreferFrame }, false, &mut w);
    assert_eq!(r, Err(PlatformError::HResult(5)));
    let mut limits_only = WindowGeometry::default();
    limits_only.min_content_size = Some(s(5, 5));
    let flags = state
        .set_geometry(WindowGeometryRequest { geometry: limits_only, preference: GeometryPreference::PreferFrame }, false, &mut w)
        .unwrap();
    assert!(flags.min_content_size);
    assert_eq!(w.set_calls, 0);
    assert!(state.get_geometry(&w).is_err());
}

#[test]
fn get_and_supported_geometry() {
    let w = FakeWindow { frame: Rect { origin: p(4, 5), size: s(100, 100) }, max_width: 150, set_calls: 0, fail: false };
    let state = WindowBaseState::new();
    let g = state.get_geometry(&w).unwrap();
    assert_eq!(g.frame_origin, Some(p(4, 5)));
    assert_eq!(g.content_origin, Some(p(5, 25)));
    assert_eq!(g.content_size, Some(s(98, 79)));
    assert_eq!(g.max_content_size, Some(s(65536, 65536)));
    let all = state.supported_geometry();
    assert!(all.frame_origin && all.max_content_size);
    assert_eq!(WindowGeometryFlags::default().frame_origin, false);
}

#[test]
fn resize_is_clamped_by_limits() {
    let mut state = WindowBaseState::new();
    state.min_content_size = s(50, 50);
    state.max_frame_size = s(300, 300);
    let frame = Rect { origin: p(0, 0), size: s(100, 100) };
    let content = Rect { origin: p(1, 20), size: s(98, 79) };
    assert_eq!(state.adjust_window_size(&frame, &content, s(10, 10)), s(52, 71));
    assert_eq!(state.adjust_window_size(&frame, &content, s(1000, 200)), s(300, 200));
}

#[test]
fn coordinates_convert_through_content_origin() {
    let state = WindowBaseState::new();
    let content = Rect { origin: p(100, 50), size: s(10, 10) };
    assert_eq!(state.local_to_global(&content, &p(5, 6)), p(105, 56));
    assert_eq!(state.global_to_local(&content, &p(105, 56)), p(5, 6));
    assert_eq!(state.global_to_local(&content, &p(i32::MIN, 0)), p(i32::MIN, -50));
}

#[test]
fn modal_window_origin_is_left_to_the_system() {
    let mut w = FakeWindow { frame: Rect { origin: p(7, 8), size: s(100, 100) }, max_width: 1000, set_calls: 0, fail: false };
    let mut state = WindowBaseState::new();
    let mut g = WindowGeometry::default();
    g.frame_origin = Some(p(300, 300));
    g.frame_size = Some(s(400, 200));
    let flags = state
        .set_geometry(WindowGeometryRequest { geometry: g, preference: GeometryPreference::PreferFrame }, true, &mut w)
        .unwrap();
    assert!(!flags.frame_origin && !flags.content_origin);
    assert!(flags.frame_size);
    assert_eq!(w.frame.origin, p(7, 8));
    assert_eq!(w.frame.size, s(400, 200));
    let mut origin_only = WindowGeometry::default();
    origin_only.content_origin = Some(p(1, 1));
    let flags = state
        .set_geometry(WindowGeometryRequest { geometry: origin_only, preference: GeometryPreference::PreferContent }, true, &mut w)
        .unwrap();
    assert!(!flags.content_origin);
    assert_eq!(w.set_calls, 1);
}

#[test]
fn preferred_frame_size_is_what_reaches_the_window() {
    let mut w = FakeWindow { frame: Rect { origin: p(0, 0), size: s(100, 100) }, max_width: 1000, set_calls: 0, fail: false };
    let mut state = WindowBaseState::new();
    let flags = state.set_geometry(both_sizes(GeometryPreference::PreferFrame), false, &mut w).unwrap();
    assert!(flags.frame_size && !flags.content_size);
    assert_eq!(w.frame.size, s(100, 100));
    assert_eq!(w.frame.origin, p(1, 2));
}
