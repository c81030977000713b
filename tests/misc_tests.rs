use nanoshell::cell::LateRefCell;
use nanoshell::dispatcher::{MessageDispatcher, ReplySlot};
use nanoshell::drag::{
    convert_drag_effect, convert_drag_effects, convert_drop_effect_mask, DragEffect, DragResult,
    DragSourceState, DropTargetState,
};
use nanoshell::error::PlatformError;
use nanoshell::handle::{EngineHandle, HandleAllocator};
use nanoshell::run_loop::{PlatformRunLoop, RunLoop};

#[test]
fn handles_start_at_one() {
    let mut a = HandleAllocator::new();
    assert_eq!(a.allocate(), Some(1));
    assert_eq!(a.allocate(), Some(2));
    let mut full = HandleAllocator { next: i64::MAX };
    assert_eq!(full.allocate(), None);
}

#[test]
fn effect_masks() {
    assert_eq!(convert_drop_effect_mask(7), vec![DragEffect::Copy, DragEffect::Move, DragEffect::Link]);
    assert_eq!(convert_drop_effect_mask(4), vec![DragEffect::Link]);
    assert!(convert_drop_effect_mask(0).is_empty());
    assert_eq!(convert_drag_effect(&DragEffect::Move), 2);
    assert_eq!(convert_drag_effect(&DragEffect::NoEffect), 0);
    assert_eq!(convert_drag_effects(&vec![DragEffect::Copy, DragEffect::Link]), 5);
    assert_eq!(convert_drag_effects(&Vec::new()), 0);
}

#[test]
fn latch_defaults_to_no_effect() {
    let mut t = DropTargetState::new();
    let first = t.dragging_entered();
    assert_eq!(t.sample_effect(), DragEffect::NoEffect);
    t.set_pending_effect(first, DragEffect::Copy);
    assert_eq!(t.sample_effect(), DragEffect::Copy);
    t.dragging_exited();
    assert_eq!(t.sample_effect(), DragEffect::NoEffect);
    let second = t.dragging_entered();
    assert_ne!(first, second);
    assert_eq!(t.sample_effect(), DragEffect::NoEffect);
    t.set_pending_effect(first, DragEffect::Move);
    assert_eq!(t.sample_effect(), DragEffect::NoEffect);
    t.set_pending_effect(second, DragEffect::Link);
    assert_eq!(t.perform_drop(), DragEffect::Link);
    assert_eq!(t.sample_effect(), DragEffect::NoEffect);
}

#[test]
fn drag_source_needs_press_event() {
    let mut s = DragSourceState::new();
    assert_eq!(s.begin_drag_session(), Err(PlatformError::NoEventFound));
    s.set_press_event(true);
    assert_eq!(s.begin_drag_session(), Ok(()));
    assert_eq!(s.drag_ended(DragEffect::Move), Some(DragResult { effect: DragEffect::Move }));
    assert_eq!(s.drag_ended(DragEffect::Move), None);
}

#[test]
fn handlers_replace_and_unregister() {
    let mut d = MessageDispatcher::new();
    let e = EngineHandle(1);
    let chan = ".menu-manager".to_string();
    assert_eq!(d.dispatch(e, &chan), None);
    assert_eq!(d.register_handler(e, chan.clone(), 10), None);
    assert_eq!(d.register_handler(e, chan.clone(), 11), Some(10));
    assert_eq!(d.register_handler(EngineHandle(2), chan.clone(), 12), None);
    assert_eq!(d.dispatch(e, &chan), Some(11));
    assert_eq!(d.dispatch(EngineHandle(2), &chan), Some(12));
    assert!(d.unregister_handler(e, &chan));
    assert!(!d.unregister_handler(e, &chan));
    assert_eq!(d.dispatch(e, &chan), None);
    assert_eq!(d.dispatch(EngineHandle(2), &chan), Some(12));
}

#[test]
fn replies_delivered_at_most_once() {
    let mut d = MessageDispatcher::new();
    let a = d.call_method(EngineHandle(1), "x".to_string()).unwrap();
    let b = d.call_method(EngineHandle(1), "y".to_string()).unwrap();
    assert_ne!(a, b);
    let call = d.on_reply(b).unwrap();
    assert_eq!(call.channel, "y");
    assert!(d.on_reply(b).is_none());
    assert!(d.on_reply(a).is_some());
    let mut slot = ReplySlot::new();
    assert!(slot.send());
    assert!(!slot.send());
}

#[test]
fn timers_fire_in_due_order_and_cancel() {
    let mut rl: RunLoop<&'static str> = RunLoop::new();
    let mut late = rl.schedule("late", 10);
    let _early = rl.schedule("early", 5);
    let _also_early = rl.schedule("also early", 5);
    let sender = rl.new_sender();
    sender.send(&mut rl, "submitted");
    let p = &mut rl.platform_run_loop;
    assert_eq!(p.take_next(0), Some("submitted"));
    assert_eq!(p.take_next(4), None);
    assert_eq!(p.take_next(6), Some("early"));
    assert_eq!(p.take_next(6), Some("also early"));
    late.cancel(&mut rl);
    assert_eq!(late.handle, 0);
    late.cancel(&mut rl);
    assert_eq!(rl.platform_run_loop.take_next(100), None);
}

#[test]
fn detached_callback_still_fires() {
    let mut rl: RunLoop<u32> = RunLoop::new();
    let mut cb = rl.schedule(1, 0);
    cb.detach();
    cb.cancel(&mut rl);
    rl.run();
    assert!(rl.platform_run_loop.running);
    assert_eq!(rl.platform_run_loop.take_next(0), Some(1));
    rl.stop();
    assert!(!rl.platform_run_loop.running);
    let mut p: PlatformRunLoop<u8> = PlatformRunLoop::new();
    let h = p.schedule(3, 1);
    p.unschedule(h);
    p.unschedule(h);
    assert_eq!(p.take_next(5), None);
}

#[test]
fn late_cell_set_once() {
    let mut c: LateRefCell<String> = LateRefCell::new();
    assert!(!c.is_set());
    c.set("v".to_string());
    assert!(c.is_set());
    assert_eq!(c.clone_value(), "v");
    c.borrow_mut().push('w');
    assert_eq!(c.borrow(), "vw");
}

#[test]
fn errors_become_call_errors() {
    let e = PlatformError::NoWindow.to_call_error();
    assert_eq!(e.code, "no-window");
    assert_eq!(e.message, "Window not found");
    assert_eq!(e.details, None);
    let send = PlatformError::SendMessageFailure { channel: ".menu-manager".to_string() };
    let s = send.to_call_error();
    assert_eq!(s.code, "send-failure");
    assert_eq!(s.details, Some(".menu-manager".to_string()));
    assert_eq!(PlatformError::NoEventFound.code(), "no-event-found");
    assert_eq!(PlatformError::NotImplemented.code(), "not-implemented");
    assert_eq!(PlatformError::LaunchEngineFailure.code(), "launch-failure");
    assert_eq!(PlatformError::HResult(3).code(), "hresult");
}

#[test]
fn dragging_updated_reply_is_latched() {
    let mut t = DropTargetState::new();
    let s = t.dragging_entered();
    t.on_dragging_updated_reply(s, Some(DragEffect::Move));
    assert_eq!(t.sample_effect(), DragEffect::Move);
    t.on_dragging_updated_reply(s, None);
    assert_eq!(t.sample_effect(), DragEffect::NoEffect);
    t.on_dragging_updated_reply(s + 1, Some(DragEffect::Copy));
    assert_eq!(t.sample_effect(), DragEffect::NoEffect);
}

#[test]
fn cancel_keeps_handles_unique() {
    let mut rl: RunLoop<u8> = RunLoop::new();
    let mut first = rl.schedule(1, 5);
    first.cancel(&mut rl);
    let second = rl.schedule(2, 5);
    assert_eq!(second.handle, 2);
}
