use nanoshell::context::Context;
use nanoshell::engine::{EngineManager, EngineState};
use nanoshell::error::PlatformError;
use nanoshell::handle::{EngineHandle, WindowHandle};
use nanoshell::routing::{
    menu_method_of, window_method_of, MenuMethod, WindowMethod, WindowReply, WindowRoute,
};
use nanoshell::window::NativeVisibility;

#[test]
fn method_names_are_routed() {
    assert_eq!(window_method_of(&"method:window-show".to_string()), WindowMethod::Show);
    assert_eq!(window_method_of(&"method:window-init".to_string()), WindowMethod::Init);
    assert_eq!(
        window_method_of(&"method:window-close-with-result".to_string()),
        WindowMethod::CloseWithResult
    );
    assert_eq!(
        window_method_of(&"method:drag-source-begin-drag-session".to_string()),
        WindowMethod::BeginDragSession
    );
    assert_eq!(window_method_of(&"method:window-shows".to_string()), WindowMethod::Unknown);
    assert_eq!(menu_method_of(&"method:menu-destroy".to_string()), MenuMethod::Destroy);
    assert_eq!(
        menu_method_of(&"method:menu-create-or-update".to_string()),
        MenuMethod::CreateOrUpdate
    );
    assert_eq!(menu_method_of(&String::new()), MenuMethod::Unknown);
}

#[test]
fn calls_are_routed_to_windows() {
    let mut ctx: Context<u32> = Context::new();
    let a = ctx.create_window(Vec::new(), None).unwrap();
    let wm = &ctx.window_manager;
    let init = "method:window-init".to_string();
    assert_eq!(wm.route_call(EngineHandle(1), WindowHandle(0), &init), Ok(WindowRoute::Init(a)));
    assert_eq!(wm.route_call(EngineHandle(9), WindowHandle(0), &init), Err(PlatformError::NoWindow));
    let create = "method:window-create".to_string();
    assert_eq!(wm.route_call(EngineHandle(1), a, &create), Ok(WindowRoute::Create(a)));
    let hide = "method:window-hide".to_string();
    assert_eq!(wm.route_call(EngineHandle(1), a, &hide), Ok(WindowRoute::Window(a, WindowMethod::Hide)));
    assert_eq!(wm.route_call(EngineHandle(1), WindowHandle(4), &hide), Err(PlatformError::NoWindow));
    let other = "method:window-unheard-of".to_string();
    assert_eq!(wm.route_call(EngineHandle(1), a, &other), Ok(WindowRoute::Window(a, WindowMethod::Unknown)));
}

#[test]
fn engine_lifecycle() {
    let mut em = EngineManager::new();
    let e = EngineHandle(1);
    assert_eq!(em.launch_engine(e), Err(PlatformError::UnknownError));
    assert_eq!(em.create_engine(e), Ok(()));
    assert_eq!(em.create_engine(e), Err(PlatformError::InvalidArgument));
    assert_eq!(em.engine_running(e), Err(PlatformError::UnknownError));
    assert_eq!(em.launch_engine(e), Ok(()));
    assert_eq!(em.launch_engine(e), Err(PlatformError::LaunchEngineFailure));
    assert_eq!(em.engine_running(e), Ok(()));
    assert_eq!(em.engines[0].state, EngineState::Running);
    em.create_engine(EngineHandle(2)).unwrap();
    assert_eq!(em.remove_engine(e), Ok(false));
    assert_eq!(em.remove_engine(EngineHandle(2)), Ok(true));
    assert_eq!(em.remove_engine(e), Err(PlatformError::UnknownError));
}

#[test]
fn first_window_scenario() {
    let mut ctx: Context<u32> = Context::new();
    ctx.run_loop.run();
    let a = ctx.create_window(vec![42], None).unwrap();
    assert_eq!(a, WindowHandle(1));
    assert_eq!(ctx.window_manager.windows[0].engine, EngineHandle(1));
    assert!(!ctx.window_manager.windows[0].initialized);
    assert_eq!(ctx.engine_manager.engines[0].state, EngineState::Launched);
    let out = ctx.window_manager.on_engine_init(EngineHandle(1)).unwrap();
    assert_eq!(out.reply.all_windows, vec![WindowHandle(1)]);
    assert_eq!(out.reply.current_window, WindowHandle(1));
    assert_eq!(out.reply.parent_window, None);
    assert_eq!(out.reply.init_data, vec![42]);
    assert!(ctx.window_manager.windows[0].initialized);
    assert_eq!(out.notify, EngineHandle(1));
    assert_eq!(ctx.window_manager.broadcast_targets(), vec![EngineHandle(1)]);
}

#[test]
fn closing_last_window_stops_run_loop() {
    let mut ctx: Context<u32> = Context::new();
    ctx.run_loop.run();
    let a = ctx.create_window(Vec::new(), None).unwrap();
    let b = ctx.create_window(Vec::new(), Some(a)).unwrap();
    assert_eq!(ctx.will_close(b), Ok(()));
    assert!(ctx.run_loop.platform_run_loop.running);
    assert_eq!(ctx.will_close(a), Ok(()));
    assert!(!ctx.run_loop.platform_run_loop.running);
    assert_eq!(ctx.will_close(a), Err(PlatformError::NoWindow));
    assert!(ctx.engine_manager.engines.is_empty());
}

#[test]
fn argument_free_calls_are_carried_out() {
    let mut ctx: Context<u32> = Context::new();
    let a = ctx.create_window(Vec::new(), None).unwrap();
    let wm = &mut ctx.window_manager;
    match wm.handle_call(EngineHandle(1), WindowHandle(0), &"method:window-init".to_string()) {
        Ok(WindowReply::Initialized(out)) => assert_eq!(out.reply.current_window, a),
        _ => panic!("init was not answered"),
    }
    assert!(matches!(
        wm.handle_call(EngineHandle(1), a, &"method:window-ready-to-show".to_string()),
        Ok(WindowReply::Visibility(NativeVisibility::Nothing))
    ));
    assert!(matches!(
        wm.handle_call(EngineHandle(1), a, &"method:window-show".to_string()),
        Ok(WindowReply::Visibility(NativeVisibility::Show))
    ));
    assert!(matches!(
        wm.handle_call(EngineHandle(1), a, &"method:window-hide".to_string()),
        Ok(WindowReply::Visibility(NativeVisibility::Hide))
    ));
    assert!(matches!(
        wm.handle_call(EngineHandle(1), a, &"method:window-no-such".to_string()),
        Ok(WindowReply::Null)
    ));
    assert!(matches!(
        wm.handle_call(EngineHandle(1), a, &"method:window-set-style".to_string()),
        Ok(WindowReply::Delegate(WindowRoute::Window(_, WindowMethod::SetStyle)))
    ));
    assert!(matches!(
        wm.handle_call(EngineHandle(1), a, &"method:window-create".to_string()),
        Ok(WindowReply::Delegate(WindowRoute::Create(_)))
    ));
    match wm.handle_call(EngineHandle(1), a, &"method:window-close".to_string()) {
        Ok(WindowReply::Closed(out)) => assert!(out.close_native),
        _ => panic!("close was not carried out"),
    }
    assert!(matches!(
        wm.handle_call(EngineHandle(1), WindowHandle(9), &"method:window-show".to_string()),
        Err(PlatformError::NoWindow)
    ));
}
