use nanoshell::error::PlatformError;
use nanoshell::handle::{EngineHandle, WindowHandle};
use nanoshell::window::{NativeVisibility, Visibility};
use nanoshell::window_manager::WindowManager;

#[test]
fn create_and_init_first_window() {
    let mut wm = WindowManager::new();
    let a = wm.create_window(vec![1, 2, 3], None).unwrap();
    assert_eq!(a, WindowHandle(1));
    assert_eq!(wm.windows[0].engine, EngineHandle(1));
    assert!(!wm.windows[0].initialized);
    assert!(wm.broadcast_targets().is_empty());
    assert_eq!(wm.window_broadcast_target(a), None);

    let out = wm.on_engine_init(EngineHandle(1)).unwrap();
    assert_eq!(out.reply.all_windows, vec![WindowHandle(1)]);
    assert_eq!(out.reply.current_window, WindowHandle(1));
    assert_eq!(out.reply.parent_window, None);
    assert_eq!(out.reply.init_data, vec![1, 2, 3]);
    assert_eq!(out.notify, EngineHandle(1));
    assert!(wm.windows[0].initialized);
    assert_eq!(wm.broadcast_targets(), vec![EngineHandle(1)]);
    assert_eq!(wm.window_broadcast_target(a), Some(EngineHandle(1)));
}

#[test]
fn broadcast_skips_uninitialized_windows() {
    let mut wm = WindowManager::new();
    let a = wm.create_window(Vec::new(), None).unwrap();
    let b = wm.create_window(Vec::new(), Some(a)).unwrap();
    wm.on_engine_init(EngineHandle(2)).unwrap();
    assert_eq!(wm.broadcast_targets(), vec![EngineHandle(2)]);
    assert_eq!(wm.window_broadcast_target(a), None);
    assert_eq!(wm.window_broadcast_target(b), Some(EngineHandle(2)));
    let out = wm.on_engine_init(EngineHandle(2)).unwrap();
    assert_eq!(out.reply.parent_window, Some(a));
    assert_eq!(out.reply.all_windows, vec![a, b]);
}

#[test]
fn init_from_unknown_engine_fails() {
    let mut wm = WindowManager::new();
    assert_eq!(wm.on_engine_init(EngineHandle(5)).err(), Some(PlatformError::NoWindow));
    assert_eq!(PlatformError::NoWindow.code(), "no-window");
}

#[test]
fn show_twice_shows_once() {
    let mut wm = WindowManager::new();
    let a = wm.create_window(Vec::new(), None).unwrap();
    assert_eq!(wm.ready_to_show(a), Ok(NativeVisibility::Nothing));
    assert_eq!(wm.show(a), Ok(NativeVisibility::Show));
    assert_eq!(wm.show(a), Ok(NativeVisibility::Nothing));
    assert_eq!(wm.hide_window(a), Ok(NativeVisibility::Hide));
    assert_eq!(wm.hide_window(a), Ok(NativeVisibility::Nothing));
}

#[test]
fn show_before_ready_is_latched() {
    let mut wm = WindowManager::new();
    let a = wm.create_window(Vec::new(), None).unwrap();
    assert_eq!(wm.show(a), Ok(NativeVisibility::Nothing));
    assert_eq!(wm.show(a), Ok(NativeVisibility::Nothing));
    assert_eq!(wm.ready_to_show(a), Ok(NativeVisibility::Show));
    assert!(wm.windows[0].visibility.visible);
}

#[test]
fn hide_before_ready_cancels_latched_show() {
    let mut v = Visibility::new();
    assert_eq!(v.show(), NativeVisibility::Nothing);
    assert_eq!(v.hide_window(), NativeVisibility::Nothing);
    assert_eq!(v.ready_to_show(), NativeVisibility::Nothing);
    assert!(!v.visible);
}

#[test]
fn visibility_on_unknown_window() {
    let mut wm = WindowManager::new();
    assert_eq!(wm.show(WindowHandle(3)), Err(PlatformError::NoWindow));
    assert_eq!(wm.hide_window(WindowHandle(3)), Err(PlatformError::NoWindow));
    assert_eq!(wm.ready_to_show(WindowHandle(3)), Err(PlatformError::NoWindow));
}

#[test]
fn modal_close_resolves_once() {
    let mut wm = WindowManager::new();
    let parent = wm.create_window(Vec::new(), None).unwrap();
    let a = wm.create_window(Vec::new(), Some(parent)).unwrap();
    wm.show_modal(a, 77).unwrap();
    assert!(wm.is_modal(a));
    let out = wm.close_with_result(a, vec![9]).unwrap();
    let done = out.completion.unwrap();
    assert_eq!(done.token, 77);
    assert_eq!(done.result, Some(vec![9]));
    assert!(out.close_native);
    assert!(!wm.is_modal(a));
    let again = wm.close(a).unwrap();
    assert!(again.completion.is_none());
    assert!(!again.close_native);
}

#[test]
fn plain_close_resolves_with_no_result() {
    let mut wm = WindowManager::new();
    let a = wm.create_window(Vec::new(), None).unwrap();
    wm.show_modal(a, 5).unwrap();
    let out = wm.close(a).unwrap();
    let done = out.completion.unwrap();
    assert_eq!(done.token, 5);
    assert_eq!(done.result, None);
}

#[test]
fn close_lists_children_and_will_close_removes() {
    let mut wm = WindowManager::new();
    let a = wm.create_window(Vec::new(), None).unwrap();
    let b = wm.create_window(Vec::new(), Some(a)).unwrap();
    let c = wm.create_window(Vec::new(), Some(a)).unwrap();
    let _d = wm.create_window(Vec::new(), Some(b)).unwrap();
    let out = wm.close(a).unwrap();
    assert_eq!(out.children, vec![b, c]);
    assert_eq!(wm.children_of(b).len(), 1);
    assert_eq!(wm.will_close(b), Ok(EngineHandle(2)));
    assert_eq!(wm.will_close(b), Err(PlatformError::NoWindow));
    assert_eq!(wm.close(b).err(), Some(PlatformError::NoWindow));
    assert_eq!(wm.window_for_engine(EngineHandle(2)), None);
    assert_eq!(wm.window_for_engine(EngineHandle(3)), Some(c));
    let e = wm.create_window(Vec::new(), None).unwrap();
    assert_eq!(e, WindowHandle(5));
}
