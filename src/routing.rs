//! Routing of inbound method calls by their method identifier.
use vstd::prelude::*;
use crate::constants::{
    DRAG_SOURCE_BEGIN_DRAG_SESSION, MENU_CREATE_OR_UPDATE, MENU_DESTROY, WINDOW_CLOSE,
    WINDOW_CLOSE_WITH_RESULT, WINDOW_CREATE, WINDOW_GET_GEOMETRY, WINDOW_HIDE, WINDOW_INIT,
    WINDOW_PERFORM_WINDOW_DRAG, WINDOW_READY_TO_SHOW, WINDOW_SET_GEOMETRY, WINDOW_SET_STYLE,
    WINDOW_SHOW, WINDOW_SHOW_MODAL, WINDOW_SHOW_POPUP_MENU, WINDOW_SUPPORTED_GEOMETRY,
};
use crate::error::PlatformError;
use crate::handle::{EngineHandle, WindowHandle};
use crate::window::{NativeVisibility, Visibility, hide_step, ready_step, show_step};
use crate::window_manager::{
    CloseOutcome, InitOutcome, WindowEntry, WindowManager, children_in, closed_entry,
    engine_index, resolved_token, window_index, with_visibility,
};

verus! {

/// The methods of the window manager channel.
#[derive(Clone, Copy, Debug, PartialEq, Eq, Structural)]
pub enum WindowMethod {
    Create,
    Init,
    Show,
    ShowModal,
    ReadyToShow,
    Hide,
    Close,
    CloseWithResult,
    SetGeometry,
    GetGeometry,
    SupportedGeometry,
    SetStyle,
    PerformWindowDrag,
    ShowPopupMenu,
    BeginDragSession,
    Unknown,
}

/// The methods of the menu channel.
#[derive(Clone, Copy, Debug, PartialEq, Eq, Structural)]
pub enum MenuMethod {
    CreateOrUpdate,
    Destroy,
    Unknown,
}

pub open spec fn window_method_spec(m: Seq<char>) -> WindowMethod {
    if m == WINDOW_CREATE@ {
        WindowMethod::Create
    } else if m == WINDOW_INIT@ {
        WindowMethod::Init
    } else if m == WINDOW_SHOW@ {
        WindowMethod::Show
    } else if m == WINDOW_SHOW_MODAL@ {
        WindowMethod::ShowModal
    } else if m == WINDOW_READY_TO_SHOW@ {
        WindowMethod::ReadyToShow
    } else if m == WINDOW_HIDE@ {
        WindowMethod::Hide
    } else if m == WINDOW_CLOSE@ {
        WindowMethod::Close
    } else if m == WINDOW_CLOSE_WITH_RESULT@ {
        WindowMethod::CloseWithResult
    } else if m == WINDOW_SET_GEOMETRY@ {
        WindowMethod::SetGeometry
    } else if m == WINDOW_GET_GEOMETRY@ {
        WindowMethod::GetGeometry
    } else if m == WINDOW_SUPPORTED_GEOMETRY@ {
        WindowMethod::SupportedGeometry
    } else if m == WINDOW_SET_STYLE@ {
        WindowMethod::SetStyle
    } else if m == WINDOW_PERFORM_WINDOW_DRAG@ {
        WindowMethod::PerformWindowDrag
    } else if m == WINDOW_SHOW_POPUP_MENU@ {
        WindowMethod::ShowPopupMenu
    } else if m == DRAG_SOURCE_BEGIN_DRAG_SESSION@ {
        WindowMethod::BeginDragSession
    } else {
        WindowMethod::Unknown
    }
}

pub open spec fn menu_method_spec(m: Seq<char>) -> MenuMethod {
    if m == MENU_CREATE_OR_UPDATE@ {
        MenuMethod::CreateOrUpdate
    } else if m == MENU_DESTROY@ {
        MenuMethod::Destroy
    } else {
        MenuMethod::Unknown
    }
}

fn name_is(m: &String, name: &str) -> (r: bool)
    ensures
        r == (m@ == name@),
{
    let owned = name.to_owned();
    *m == owned
}

/// The window method that identifier `m` names.
pub fn window_method_of(m: &String) -> (r: WindowMethod)
    ensures
        r == window_method_spec(m@),
{
    if name_is(m, WINDOW_CREATE) {
        WindowMethod::Create
    } else if name_is(m, WINDOW_INIT) {
        WindowMethod::Init
    } else if name_is(m, WINDOW_SHOW) {
        WindowMethod::Show
    } else if name_is(m, WINDOW_SHOW_MODAL) {
        WindowMethod::ShowModal
    } else if name_is(m, WINDOW_READY_TO_SHOW) {
        WindowMethod::ReadyToShow
    } else if name_is(m, WINDOW_HIDE) {
        WindowMethod::Hide
    } else if name_is(m, WINDOW_CLOSE) {
        WindowMethod::Close
    } else if name_is(m, WINDOW_CLOSE_WITH_RESULT) {
        WindowMethod::CloseWithResult
    } else if name_is(m, WINDOW_SET_GEOMETRY) {
        WindowMethod::SetGeometry
    } else if name_is(m, WINDOW_GET_GEOMETRY) {
        WindowMethod::GetGeometry
    } else if name_is(m, WINDOW_SUPPORTED_GEOMETRY) {
        WindowMethod::SupportedGeometry
    } else if name_is(m, WINDOW_SET_STYLE) {
        WindowMethod::SetStyle
    } else if name_is(m, WINDOW_PERFORM_WINDOW_DRAG) {
        WindowMethod::PerformWindowDrag
    } else if name_is(m, WINDOW_SHOW_POPUP_MENU) {
        WindowMethod::ShowPopupMenu
    } else if name_is(m, DRAG_SOURCE_BEGIN_DRAG_SESSION) {
        WindowMethod::BeginDragSession
    } else {
        WindowMethod::Unknown
    }
}

/// The menu method that identifier `m` names.
pub fn menu_method_of(m: &String) -> (r: MenuMethod)
    ensures
        r == menu_method_spec(m@),
{
    if name_is(m, MENU_CREATE_OR_UPDATE) {
        MenuMethod::CreateOrUpdate
    } else if name_is(m, MENU_DESTROY) {
        MenuMethod::Destroy
    } else {
        MenuMethod::Unknown
    }
}

/// Where a call on the window manager channel goes.
#[derive(Clone, Copy, Debug, PartialEq, Eq, Structural)]
pub enum WindowRoute {
    /// The INIT handshake of the calling engine, whose window is given.
    Init(WindowHandle),
    /// A new window, child of the call's target.
    Create(WindowHandle),
    /// A method of a live window; an `Unknown` method is answered with a
    /// null success.
    Window(WindowHandle, WindowMethod),
}

impl WindowManager {
    /// Routes a call from engine `engine` with target `target` and method
    /// identifier `method`. INIT needs a window run by the caller, any other
    /// method but CREATE a live target; otherwise the call fails with
    /// `NoWindow`.
    pub fn route_call(&self, engine: EngineHandle, target: WindowHandle, method: &String) -> (r:
        Result<WindowRoute, PlatformError>)
        requires
            self.wf(),
        ensures
            window_method_spec(method@) == WindowMethod::Init ==> (if self.has_engine(engine) {
                r == Ok::<WindowRoute, PlatformError>(
                    WindowRoute::Init(self.windows@[engine_index(self.windows@, engine)].handle),
                )
            } else {
                r == Err::<WindowRoute, PlatformError>(PlatformError::NoWindow)
            }),
            window_method_spec(method@) == WindowMethod::Create ==> r == Ok::<
                WindowRoute,
                PlatformError,
            >(WindowRoute::Create(target)),
            window_method_spec(method@) != WindowMethod::Init && window_method_spec(method@)
                != WindowMethod::Create ==> (if self.contains(target) {
                r == Ok::<WindowRoute, PlatformError>(
                    WindowRoute::Window(target, window_method_spec(method@)),
                )
            } else {
                r == Err::<WindowRoute, PlatformError>(PlatformError::NoWindow)
            }),
    {
        let kind = window_method_of(method);
        match kind {
            WindowMethod::Init => match self.window_for_engine(engine) {
                Some(w) => Ok(WindowRoute::Init(w)),
                None => Err(PlatformError::NoWindow),
            },
            WindowMethod::Create => Ok(WindowRoute::Create(target)),
            _ => {
                if self.is_live(target) {
                    Ok(WindowRoute::Window(target, kind))
                } else {
                    Err(PlatformError::NoWindow)
                }
            },
        }
    }
}

/// The reply to a call on the window manager channel.
pub enum WindowReply {
    /// The INIT handshake completed.
    Initialized(InitOutcome),
    /// A visibility request was handled; the native call to make.
    Visibility(NativeVisibility),
    /// A close was requested.
    Closed(CloseOutcome),
    /// The method needs its arguments decoded, or the native window: the
    /// route says where it goes.
    Delegate(WindowRoute),
    /// The null success that answers a method nobody handles.
    Null,
}

/// `next` is `prev` after engine `e`'s INIT handshake, answered by `out`.
pub open spec fn init_answered(
    prev: Seq<WindowEntry>,
    next: Seq<WindowEntry>,
    e: EngineHandle,
    out: InitOutcome,
) -> bool {
    let i = engine_index(prev, e);
    let w = prev[i];
    &&& out.reply.all_windows@ == prev.map_values(|x: WindowEntry| x.handle)
    &&& out.reply.current_window == w.handle
    &&& out.reply.init_data@ == w.init_data@
    &&& out.reply.parent_window == w.parent
    &&& out.notify == e
    &&& next == prev.update(i, WindowEntry { initialized: true, ..w })
}

/// `next` is `prev` after window `h` took visibility step `step`, whose
/// native call is `a`.
pub open spec fn stepped(
    prev: Seq<WindowEntry>,
    next: Seq<WindowEntry>,
    h: WindowHandle,
    step: (Visibility, NativeVisibility),
    a: NativeVisibility,
) -> bool {
    let i = window_index(prev, h);
    &&& a == step.1
    &&& next == prev.update(i, with_visibility(prev[i], step.0))
}

/// `next` is `prev` after a plain close of window `h`, reported by `out`.
pub open spec fn closed(
    prev: Seq<WindowEntry>,
    next: Seq<WindowEntry>,
    h: WindowHandle,
    out: CloseOutcome,
) -> bool {
    let i = window_index(prev, h);
    let w = prev[i];
    &&& out.completion.is_some() == resolved_token(w).is_some()
    &&& out.completion.is_some() ==> out.completion.unwrap().token == resolved_token(w).unwrap()
        && out.completion.unwrap().result.is_none()
    &&& out.close_native == !w.closing
    &&& out.children@ == children_in(prev, h)
    &&& next == prev.update(i, closed_entry(w))
}

impl WindowManager {
    /// Handles a call that needs no arguments: INIT, show, ready-to-show,
    /// hide and close are carried out here, a method nobody handles gets the
    /// null success, and any other method is handed back with its route.
    /// A call that cannot be routed fails with `NoWindow` and changes
    /// nothing.
    pub fn handle_call(&mut self, engine: EngineHandle, target: WindowHandle, method: &String) -> (r:
        Result<WindowReply, PlatformError>)
        requires
            old(self).wf(),
        ensures
            final(self).wf(),
            final(self).next_window == old(self).next_window,
            final(self).next_engine == old(self).next_engine,
            ({
                let m = window_method_spec(method@);
                let prev = old(self).windows@;
                let next = final(self).windows@;
                let routed = m == WindowMethod::Init && old(self).has_engine(engine) || m
                    == WindowMethod::Create || m != WindowMethod::Init && old(self).contains(target);
                &&& !routed ==> r == Err::<WindowReply, PlatformError>(PlatformError::NoWindow)
                    && next == prev
                &&& routed && m == WindowMethod::Init ==> (r matches Ok(WindowReply::Initialized(out))
                    && init_answered(prev, next, engine, out))
                &&& routed && m == WindowMethod::Show ==> (r matches Ok(WindowReply::Visibility(a))
                    && stepped(prev, next, target, show_step(old(self).entry(target).visibility), a))
                &&& routed && m == WindowMethod::ReadyToShow ==> (r matches Ok(
                    WindowReply::Visibility(a),
                ) && stepped(prev, next, target, ready_step(old(self).entry(target).visibility), a))
                &&& routed && m == WindowMethod::Hide ==> (r matches Ok(WindowReply::Visibility(a))
                    && stepped(prev, next, target, hide_step(old(self).entry(target).visibility), a))
                &&& routed && m == WindowMethod::Close ==> (r matches Ok(WindowReply::Closed(out))
                    && closed(prev, next, target, out))
                &&& routed && m == WindowMethod::Unknown ==> (r matches Ok(WindowReply::Null)
                    && next == prev)
                &&& routed && m == WindowMethod::Create ==> (r matches Ok(WindowReply::Delegate(route))
                    && route == WindowRoute::Create(target) && next == prev)
                &&& routed && m != WindowMethod::Init && m != WindowMethod::Show && m
                    != WindowMethod::ReadyToShow && m != WindowMethod::Hide && m
                    != WindowMethod::Close && m != WindowMethod::Unknown && m
                    != WindowMethod::Create ==> (r matches Ok(WindowReply::Delegate(route))
                    && route == WindowRoute::Window(target, m) && next == prev)
            }),
    {
        let route = match self.route_call(engine, target, method) {
            Ok(route) => route,
            Err(e) => {
                return Err(e);
            },
        };
        match route {
            WindowRoute::Init(_) => match self.on_engine_init(engine) {
                Ok(out) => Ok(WindowReply::Initialized(out)),
                Err(e) => Err(e),
            },
            WindowRoute::Create(_) => Ok(WindowReply::Delegate(route)),
            WindowRoute::Window(h, kind) => match kind {
                WindowMethod::Show => match self.show(h) {
                    Ok(a) => Ok(WindowReply::Visibility(a)),
                    Err(e) => Err(e),
                },
                WindowMethod::ReadyToShow => match self.ready_to_show(h) {
                    Ok(a) => Ok(WindowReply::Visibility(a)),
                    Err(e) => Err(e),
                },
                WindowMethod::Hide => match self.hide_window(h) {
                    Ok(a) => Ok(WindowReply::Visibility(a)),
                    Err(e) => Err(e),
                },
                WindowMethod::Close => match self.close(h) {
                    Ok(out) => Ok(WindowReply::Closed(out)),
                    Err(e) => Err(e),
                },
                WindowMethod::Unknown => Ok(WindowReply::Null),
                _ => Ok(WindowReply::Delegate(route)),
            },
        }
    }
}

} // verus!
