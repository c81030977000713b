//! The channel names and method identifiers that form the wire contract with
//! engines.
use vstd::prelude::*;

verus! {

/// The per-engine channel that carries every window-bound message.
pub const DISPATCHER: &'static str = ".window.dispatcher";
/// Sub-channel of the window manager.
pub const WINDOW_MANAGER: &'static str = ".window.window-manager";
/// Sub-channel of a window's drop target.
pub const DROP_TARGET: &'static str = ".window.drop-target";
/// Sub-channel of a window's drag source.
pub const DRAG_SOURCE: &'static str = ".window.drag-source";
/// The process-wide menu channel.
pub const MENU_MANAGER: &'static str = ".menu-manager";

pub const WINDOW_CREATE: &'static str = "method:window-create";
pub const WINDOW_INIT: &'static str = "method:window-init";
pub const WINDOW_SHOW: &'static str = "method:window-show";
pub const WINDOW_SHOW_MODAL: &'static str = "method:window-show-modal";
pub const WINDOW_READY_TO_SHOW: &'static str = "method:window-ready-to-show";
pub const WINDOW_HIDE: &'static str = "method:window-hide";
pub const WINDOW_CLOSE: &'static str = "method:window-close";
pub const WINDOW_CLOSE_WITH_RESULT: &'static str = "method:window-close-with-result";
pub const WINDOW_SET_GEOMETRY: &'static str = "method:window-set-geometry";
pub const WINDOW_GET_GEOMETRY: &'static str = "method:window-get-geometry";
pub const WINDOW_SUPPORTED_GEOMETRY: &'static str = "method:window-supported-geometry";
pub const WINDOW_SET_STYLE: &'static str = "method:window-set-style";
pub const WINDOW_PERFORM_WINDOW_DRAG: &'static str = "method:window-perform-window-drag";
pub const WINDOW_SHOW_POPUP_MENU: &'static str = "method:window-show-popup-menu";

pub const DROP_TARGET_DRAGGING_UPDATED: &'static str = "method:drop-target-dragging-updated";
pub const DROP_TARGET_DRAGGING_EXITED: &'static str = "method:drop-target-dragging-exited";
pub const DROP_TARGET_PERFORM_DROP: &'static str = "method:drop-target-perform-drop";

pub const DRAG_SOURCE_BEGIN_DRAG_SESSION: &'static str = "method:drag-source-begin-drag-session";
pub const DRAG_SOURCE_DRAG_SESSION_ENDED: &'static str = "method:drag-source-drag-session-ended";

pub const MENU_CREATE_OR_UPDATE: &'static str = "method:menu-create-or-update";
pub const MENU_DESTROY: &'static str = "method:menu-destroy";
pub const MENU_ON_ACTION: &'static str = "method:menu-on-action";

pub const MENUBAR_MOVE_TO_PREVIOUS_MENU: &'static str = "method:menubar-move-to-previous-menu";
pub const MENUBAR_MOVE_TO_NEXT_MENU: &'static str = "method:menubar-move-to-next-menu";

pub const EVENT_WINDOW_INITIALIZE: &'static str = "event:window-initialize";
pub const EVENT_WINDOW_VISIBILITY_CHANGED: &'static str = "event:window-visibility-changed";
pub const EVENT_WINDOW_CLOSE_REQUEST: &'static str = "event:window-close-request";
pub const EVENT_WINDOW_CLOSE: &'static str = "event:window-close";

pub const DRAG_DATA_FILES: &'static str = "drag-data:internal:files";
pub const DRAG_DATA_URLS: &'static str = "drag-data:internal:urls";

} // verus!
