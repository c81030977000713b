//! The application context: one value that owns every registry, built once
//! at startup and handed by reference to whoever needs it.
use vstd::prelude::*;
use crate::dispatcher::MessageDispatcher;
use crate::engine::{EngineEntry, EngineManager, EngineState};
use crate::error::PlatformError;
use crate::handle::{EngineHandle, WindowHandle};
use crate::menu_manager::MenuManager;
use crate::run_loop::RunLoop;
use crate::window::initial_visibility;
use crate::window_manager::{WindowEntry, WindowManager, window_index};

verus! {

/// Every registry of the shell, with the run loop that runs callbacks of
/// type `T`.
pub struct Context<T> {
    pub run_loop: RunLoop<T>,
    pub engine_manager: EngineManager,
    pub message_manager: MessageDispatcher,
    pub window_manager: WindowManager,
    pub menu_manager: MenuManager,
}

impl<T> Context<T> {
    pub open spec fn wf(&self) -> bool {
        &&& self.run_loop.wf()
        &&& self.engine_manager.wf()
        &&& self.message_manager.wf()
        &&& self.window_manager.wf()
        &&& self.menu_manager.wf()
        &&& forall|i: int|
            0 <= i < self.engine_manager.engines@.len() ==> (#[trigger] self.engine_manager.engines@[i]).handle.0
                < self.window_manager.next_engine.next
    }

    pub fn new() -> (r: Context<T>)
        ensures
            r.wf(),
            r.window_manager.windows@.len() == 0,
            r.engine_manager.engines@.len() == 0,
    {
        Context {
            run_loop: RunLoop::new(),
            engine_manager: EngineManager::new(),
            message_manager: MessageDispatcher::new(),
            window_manager: WindowManager::new(),
            menu_manager: MenuManager::new(),
        }
    }

    /// Creates a window with a new engine and launches the engine. Returns
    /// at once with the window handle; `UnknownError` when handles are used
    /// up.
    pub fn create_window(&mut self, init_data: Vec<u8>, parent: Option<WindowHandle>) -> (r:
        Result<WindowHandle, PlatformError>)
        requires
            old(self).wf(),
        ensures
            final(self).wf(),
            r.is_ok() <==> old(self).window_manager.next_window.next < i64::MAX
                && old(self).window_manager.next_engine.next < i64::MAX,
            r.is_err() ==> r == Err::<WindowHandle, PlatformError>(PlatformError::UnknownError)
                && final(self).window_manager.windows@ == old(self).window_manager.windows@
                && final(self).engine_manager.engines@ == old(self).engine_manager.engines@,
            r.is_ok() ==> ({
                let h = WindowHandle(old(self).window_manager.next_window.next);
                let e = EngineHandle(old(self).window_manager.next_engine.next);
                &&& r == Ok::<WindowHandle, PlatformError>(h)
                &&& final(self).window_manager.windows@ == old(self).window_manager.windows@.push(
                    WindowEntry {
                        handle: h,
                        engine: e,
                        parent,
                        init_data,
                        initialized: false,
                        visibility: initial_visibility(),
                        modal: None,
                        closing: false,
                    },
                )
                &&& final(self).engine_manager.engines@ == old(self).engine_manager.engines@.push(
                    EngineEntry { handle: e, state: EngineState::Launched },
                )
            }),
    {
        let ghost e = EngineHandle(self.window_manager.next_engine.next);
        match self.window_manager.create_window(init_data, parent) {
            Some(h) => {
                let n = self.window_manager.windows.len() - 1;
                let engine = self.window_manager.windows[n].engine;
                proof {
                    if self.engine_manager.contains(engine) {
                        let i = choose|i: int| 0 <= i < self.engine_manager.engines@.len() && self.engine_manager.engines@[i].handle == engine;
                        assert(self.engine_manager.engines@[i].handle.0 < e.0);
                    }
                }
                let created = self.engine_manager.create_engine(engine);
                let ghost pushed = self.engine_manager.engines@;
                let launched = self.engine_manager.launch_engine(engine);
                proof {
                    let k = pushed.len() - 1;
                    assert(pushed[k].handle == engine);
                    let c = crate::engine::engine_entry_index(pushed, engine);
                    assert(pushed[c].handle == engine);
                    assert(c == k);
                    assert(self.engine_manager.engines@ =~= old(self).engine_manager.engines@.push(
                        EngineEntry { handle: e, state: EngineState::Launched },
                    ));
                }
                Ok(h)
            },
            None => Err(PlatformError::UnknownError),
        }
    }

    /// The native window `h` is closing: the window and its engine are torn
    /// down for good, and the run loop stops when the last engine is gone.
    pub fn will_close(&mut self, h: WindowHandle) -> (r: Result<(), PlatformError>)
        requires
            old(self).wf(),
        ensures
            final(self).wf(),
            r.is_err() <==> !old(self).window_manager.contains(h),
            !final(self).window_manager.contains(h),
            final(self).window_manager.next_window == old(self).window_manager.next_window,
            final(self).window_manager.next_engine == old(self).window_manager.next_engine,
            r.is_ok() ==> final(self).window_manager.windows@ == old(self).window_manager.windows@.remove(window_index(old(self).window_manager.windows@, h)),
            r.is_ok() ==> !final(self).engine_manager.contains(
                old(self).window_manager.windows@[window_index(
                    old(self).window_manager.windows@,
                    h,
                )].engine,
            ),
            r.is_ok() && final(self).engine_manager.engines@.len() == 0 ==> !final(self).run_loop.platform_run_loop.running,
    {
        match self.window_manager.will_close(h) {
            Ok(engine) => {
                let _removed = self.engine_manager.remove_engine(engine);
                if self.engine_manager.engines.len() == 0 {
                    self.run_loop.stop();
                }
                Ok(())
            },
            Err(e) => Err(e),
        }
    }
}

} // verus!
