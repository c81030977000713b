//! The registry of live windows: creation, the INIT handshake, broadcast
//! gating, visibility requests, modal completion and closing.
use vstd::prelude::*;
use crate::error::PlatformError;
use crate::handle::{EngineHandle, HandleAllocator, WindowHandle};
use crate::window::{
    NativeVisibility, Visibility, hide_step, initial_visibility, ready_step, show_step,
    visibility_wf,
};

verus! {

/// One live window.
pub struct WindowEntry {
    pub handle: WindowHandle,
    pub engine: EngineHandle,
    pub parent: Option<WindowHandle>,
    /// Opaque payload handed to the engine at INIT.
    pub init_data: Vec<u8>,
    /// The INIT handshake has completed.
    pub initialized: bool,
    pub visibility: Visibility,
    /// The continuation of a modal show, waiting for the window to close.
    pub modal: Option<u64>,
    /// A close has been requested.
    pub closing: bool,
}

/// The reply to an engine's INIT message.
pub struct InitReply {
    pub all_windows: Vec<WindowHandle>,
    pub current_window: WindowHandle,
    pub init_data: Vec<u8>,
    pub parent_window: Option<WindowHandle>,
}

/// The result of the INIT handshake: the reply, and the engine that gets the
/// `initialize` event on its window channel.
pub struct InitOutcome {
    pub reply: InitReply,
    pub notify: EngineHandle,
}

/// A modal continuation resolved by a close: `result` is `None` for a plain
/// close.
pub struct ModalCompletion {
    pub token: u64,
    pub result: Option<Vec<u8>>,
}

/// What a close request asks of the caller.
pub struct CloseOutcome {
    /// The modal continuation to resolve, if one was pending.
    pub completion: Option<ModalCompletion>,
    /// Whether the native window must be asked to close (false when a close
    /// was already under way).
    pub close_native: bool,
    /// The child windows whose closing is requested in turn.
    pub children: Vec<WindowHandle>,
}

/// Owns every live window.
pub struct WindowManager {
    pub windows: Vec<WindowEntry>,
    pub next_window: HandleAllocator,
    pub next_engine: HandleAllocator,
}

/// The position of window `h` in `ws`, or -1.
pub open spec fn window_index(ws: Seq<WindowEntry>, h: WindowHandle) -> int {
    if exists|i: int| 0 <= i < ws.len() && ws[i].handle == h {
        choose|i: int| 0 <= i < ws.len() && ws[i].handle == h
    } else {
        -1
    }
}

/// The position of the window of engine `e` in `ws`, or -1.
pub open spec fn engine_index(ws: Seq<WindowEntry>, e: EngineHandle) -> int {
    if exists|i: int| 0 <= i < ws.len() && ws[i].engine == e {
        choose|i: int| 0 <= i < ws.len() && ws[i].engine == e
    } else {
        -1
    }
}

/// `e` with a new visibility.
pub open spec fn with_visibility(e: WindowEntry, v: Visibility) -> WindowEntry {
    WindowEntry { visibility: v, ..e }
}

/// `e` after a close request: closing, with no modal continuation left.
pub open spec fn closed_entry(e: WindowEntry) -> WindowEntry {
    WindowEntry { modal: None, closing: true, ..e }
}

/// The token of the continuation that a close of `e` resolves.
pub open spec fn resolved_token(e: WindowEntry) -> Option<u64> {
    e.modal
}

/// A modal continuation is resolved once: once a close has resolved it, a
/// later close of the same window resolves nothing.
pub proof fn lemma_modal_resolved_once(e: WindowEntry)
    ensures
        resolved_token(closed_entry(e)).is_none(),
        closed_entry(closed_entry(e)) == closed_entry(e),
{
}

/// The engines of the initialized windows of `ws`, in order.
pub open spec fn initialized_engines(ws: Seq<WindowEntry>) -> Seq<EngineHandle>
    decreases ws.len(),
{
    if ws.len() == 0 {
        seq![]
    } else if ws.last().initialized {
        initialized_engines(ws.drop_last()).push(ws.last().engine)
    } else {
        initialized_engines(ws.drop_last())
    }
}

/// The handles of the windows of `ws` whose parent is `h`, in order.
pub open spec fn children_in(ws: Seq<WindowEntry>, h: WindowHandle) -> Seq<WindowHandle>
    decreases ws.len(),
{
    if ws.len() == 0 {
        seq![]
    } else if ws.last().parent == Some(h) {
        children_in(ws.drop_last(), h).push(ws.last().handle)
    } else {
        children_in(ws.drop_last(), h)
    }
}

/// Copies a byte payload.
fn copy_bytes(v: &Vec<u8>) -> (r: Vec<u8>)
    ensures
        r@ == v@,
{
    let mut r: Vec<u8> = Vec::new();
    let mut i: usize = 0;
    while i < v.len()
        invariant
            i <= v@.len(),
            r@ == v@.subrange(0, i as int),
        decreases v@.len() - i,
    {
        r.push(v[i]);
        proof {
            assert(v@.subrange(0, i + 1) =~= v@.subrange(0, i as int).push(v@[i as int]));
        }
        i = i + 1;
    }
    proof {
        assert(v@.subrange(0, v@.len() as int) =~= v@);
    }
    r
}

impl WindowManager {
    pub open spec fn wf(&self) -> bool {
        &&& self.next_window.wf()
        &&& self.next_engine.wf()
        &&& forall|i: int, j: int|
            0 <= i < self.windows@.len() && 0 <= j < self.windows@.len() && i != j
                ==> self.windows@[i].handle != self.windows@[j].handle
                && self.windows@[i].engine != self.windows@[j].engine
        &&& forall|i: int|
            0 <= i < self.windows@.len() ==> self.next_window.issued(
                (#[trigger] self.windows@[i]).handle.0,
            ) && self.next_engine.issued(self.windows@[i].engine.0) && visibility_wf(
                self.windows@[i].visibility,
            )
    }

    /// Whether window `h` is live.
    pub open spec fn contains(&self, h: WindowHandle) -> bool {
        exists|i: int| 0 <= i < self.windows@.len() && self.windows@[i].handle == h
    }

    /// The live window `h`; meaningful when `contains(h)`.
    pub open spec fn entry(&self, h: WindowHandle) -> WindowEntry {
        self.windows@[window_index(self.windows@, h)]
    }

    /// Whether some live window belongs to engine `e`.
    pub open spec fn has_engine(&self, e: EngineHandle) -> bool {
        exists|i: int| 0 <= i < self.windows@.len() && self.windows@[i].engine == e
    }

    pub fn new() -> (r: WindowManager)
        ensures
            r.wf(),
            r.windows@.len() == 0,
            r.next_window.next == 1,
            r.next_engine.next == 1,
    {
        WindowManager {
            windows: Vec::new(),
            next_window: HandleAllocator::new(),
            next_engine: HandleAllocator::new(),
        }
    }

    fn find(&self, h: WindowHandle) -> (r: Option<usize>)
        requires
            self.wf(),
        ensures
            r.is_some() == self.contains(h),
            r.is_some() ==> r.unwrap() < self.windows@.len() && r.unwrap() == window_index(
                self.windows@,
                h,
            ),
    {
        let mut i: usize = 0;
        while i < self.windows.len()
            invariant
                self.wf(),
                i <= self.windows@.len(),
                forall|k: int| 0 <= k < i ==> self.windows@[k].handle != h,
            decreases self.windows@.len() - i,
        {
            if self.windows[i].handle.0 == h.0 {
                proof {
                    let c = window_index(self.windows@, h);
                    assert(self.windows@[c].handle == h);
                }
                return Some(i);
            }
            i = i + 1;
        }
        None
    }

    fn find_engine(&self, e: EngineHandle) -> (r: Option<usize>)
        requires
            self.wf(),
        ensures
            r.is_some() == self.has_engine(e),
            r.is_some() ==> r.unwrap() < self.windows@.len() && r.unwrap() == engine_index(
                self.windows@,
                e,
            ),
    {
        let mut i: usize = 0;
        while i < self.windows.len()
            invariant
                self.wf(),
                i <= self.windows@.len(),
                forall|k: int| 0 <= k < i ==> self.windows@[k].engine != e,
            decreases self.windows@.len() - i,
        {
            if self.windows[i].engine.0 == e.0 {
                proof {
                    let c = engine_index(self.windows@, e);
                    assert(self.windows@[c].engine == e);
                }
                return Some(i);
            }
            i = i + 1;
        }
        None
    }

    /// Whether window `h` is live.
    pub fn is_live(&self, h: WindowHandle) -> (r: bool)
        requires
            self.wf(),
        ensures
            r == self.contains(h),
    {
        self.find(h).is_some()
    }

    /// The window that engine `e` runs in.
    pub fn window_for_engine(&self, e: EngineHandle) -> (r: Option<WindowHandle>)
        requires
            self.wf(),
        ensures
            r.is_some() == self.has_engine(e),
            r.is_some() ==> r.unwrap() == self.windows@[engine_index(self.windows@, e)].handle,
    {
        match self.find_engine(e) {
            Some(i) => Some(self.windows[i].handle),
            None => None,
        }
    }

    /// Creates a window and its engine under fresh handles. The window starts
    /// uninitialized and hidden. `None` when the handle space is used up.
    pub fn create_window(&mut self, init_data: Vec<u8>, parent: Option<WindowHandle>) -> (r:
        Option<WindowHandle>)
        requires
            old(self).wf(),
        ensures
            final(self).wf(),
            r.is_some() <==> old(self).next_window.next < i64::MAX && old(self).next_engine.next
                < i64::MAX,
            r.is_none() ==> final(self).windows@ == old(self).windows@ && final(self).next_window
                == old(self).next_window && final(self).next_engine == old(self).next_engine,
            r.is_some() ==> r.unwrap() == WindowHandle(old(self).next_window.next)
                && final(self).next_window.next == old(self).next_window.next + 1
                && final(self).next_engine.next == old(self).next_engine.next + 1,
            r.is_some() ==> final(self).windows@ == old(self).windows@.push(
                WindowEntry {
                    handle: WindowHandle(old(self).next_window.next),
                    engine: EngineHandle(old(self).next_engine.next),
                    parent,
                    init_data,
                    initialized: false,
                    visibility: initial_visibility(),
                    modal: None,
                    closing: false,
                },
            ),
    {
        if self.next_window.next == i64::MAX || self.next_engine.next == i64::MAX {
            return None;
        }
        let w = self.next_window.allocate();
        let e = self.next_engine.allocate();
        match (w, e) {
            (Some(w), Some(e)) => {
                let entry = WindowEntry {
                    handle: WindowHandle(w),
                    engine: EngineHandle(e),
                    parent,
                    init_data,
                    initialized: false,
                    visibility: Visibility::new(),
                    modal: None,
                    closing: false,
                };
                self.windows.push(entry);
                Some(WindowHandle(w))
            },
            _ => None,
        }
    }

    /// The INIT handshake of engine `e`: marks its window initialized and
    /// replies with every live window handle, the window's own handle, its
    /// init payload and its parent. `NoWindow` when no window runs `e`.
    pub fn on_engine_init(&mut self, e: EngineHandle) -> (r: Result<InitOutcome, PlatformError>)
        requires
            old(self).wf(),
        ensures
            final(self).wf(),
            final(self).next_window == old(self).next_window,
            final(self).next_engine == old(self).next_engine,
            r.is_err() <==> !old(self).has_engine(e),
            r.is_err() ==> r == Err::<InitOutcome, PlatformError>(PlatformError::NoWindow)
                && final(self).windows@ == old(self).windows@,
            r.is_ok() ==> ({
                let i = engine_index(old(self).windows@, e);
                let w = old(self).windows@[i];
                let out = r.unwrap();
                &&& out.reply.all_windows@ == old(self).windows@.map_values(
                    |x: WindowEntry| x.handle,
                )
                &&& out.reply.current_window == w.handle
                &&& out.reply.init_data@ == w.init_data@
                &&& out.reply.parent_window == w.parent
                &&& out.notify == e
                &&& final(self).windows@ == old(self).windows@.update(
                    i,
                    WindowEntry { initialized: true, ..w },
                )
            }),
    {
        match self.find_engine(e) {
            None => Err(PlatformError::NoWindow),
            Some(i) => {
                let mut all: Vec<WindowHandle> = Vec::new();
                let mut k: usize = 0;
                while k < self.windows.len()
                    invariant
                        k <= self.windows@.len(),
                        all@ == self.windows@.subrange(0, k as int).map_values(
                            |x: WindowEntry| x.handle,
                        ),
                    decreases self.windows@.len() - k,
                {
                    all.push(self.windows[k].handle);
                    proof {
                        assert(self.windows@.subrange(0, k + 1).map_values(|x: WindowEntry| x.handle)
                            =~= self.windows@.subrange(0, k as int).map_values(
                            |x: WindowEntry| x.handle,
                        ).push(self.windows@[k as int].handle));
                    }
                    k = k + 1;
                }
                proof {
                    assert(self.windows@.subrange(0, self.windows@.len() as int) =~= self.windows@);
                }
                let data = copy_bytes(&self.windows[i].init_data);
                let current = self.windows[i].handle;
                let parent = self.windows[i].parent;
                self.windows[i].initialized = true;
                Ok(
                    InitOutcome {
                        reply: InitReply {
                            all_windows: all,
                            current_window: current,
                            init_data: data,
                            parent_window: parent,
                        },
                        notify: e,
                    },
                )
            },
        }
    }

    /// The engines that a broadcast reaches: those whose window has completed
    /// the INIT handshake, in registry order, and no other.
    pub fn broadcast_targets(&self) -> (r: Vec<EngineHandle>)
        requires
            self.wf(),
        ensures
            r@ == initialized_engines(self.windows@),
            forall|e: EngineHandle|
                r@.contains(e) <==> exists|i: int|
                    0 <= i < self.windows@.len() && (#[trigger] self.windows@[i]).initialized
                        && self.windows@[i].engine == e,
    {
        let mut r: Vec<EngineHandle> = Vec::new();
        let mut k: usize = 0;
        while k < self.windows.len()
            invariant
                k <= self.windows@.len(),
                r@ == initialized_engines(self.windows@.subrange(0, k as int)),
                forall|e: EngineHandle|
                    r@.contains(e) <==> exists|i: int|
                        0 <= i < k && (#[trigger] self.windows@[i]).initialized
                            && self.windows@[i].engine == e,
            decreases self.windows@.len() - k,
        {
            let ghost before = r@;
            proof {
                let w = self.windows@.subrange(0, k + 1);
                assert(w.drop_last() =~= self.windows@.subrange(0, k as int));
                assert(w.last() == self.windows@[k as int]);
            }
            if self.windows[k].initialized {
                r.push(self.windows[k].engine);
                proof {
                    assert forall|e: EngineHandle| r@.contains(e) <==> exists|i: int|
                        0 <= i < k + 1 && (#[trigger] self.windows@[i]).initialized
                            && self.windows@[i].engine == e by {
                        if r@.contains(e) {
                            let w = choose|w: int| 0 <= w < r@.len() && r@[w] == e;
                            if w < before.len() {
                                assert(before[w] == e);
                                assert(before.contains(e));
                            } else {
                                assert(self.windows@[k as int].engine == e);
                            }
                        }
                        if exists|i: int| 0 <= i < k + 1 && (#[trigger] self.windows@[i]).initialized
                            && self.windows@[i].engine == e {
                            let i = choose|i: int| 0 <= i < k + 1 && (#[trigger] self.windows@[i]).initialized
                                && self.windows@[i].engine == e;
                            if i < k {
                                assert(before.contains(e));
                                let w = choose|w: int| 0 <= w < before.len() && before[w] == e;
                                assert(r@[w] == e);
                            } else {
                                assert(r@[before.len() as int] == e);
                            }
                        }
                    }
                }
            } else {
                proof {
                    assert forall|e: EngineHandle| r@.contains(e) <==> exists|i: int|
                        0 <= i < k + 1 && (#[trigger] self.windows@[i]).initialized
                            && self.windows@[i].engine == e by {
                        if exists|i: int| 0 <= i < k + 1 && (#[trigger] self.windows@[i]).initialized
                            && self.windows@[i].engine == e {
                            let i = choose|i: int| 0 <= i < k + 1 && (#[trigger] self.windows@[i]).initialized
                                && self.windows@[i].engine == e;
                            assert(i < k);
                        }
                    }
                }
            }
            k = k + 1;
        }
        proof {
            assert(self.windows@.subrange(0, self.windows@.len() as int) =~= self.windows@);
        }
        r
    }

    /// The engine that an event on window `h`'s channel reaches: none before
    /// the window has completed the INIT handshake.
    pub fn window_broadcast_target(&self, h: WindowHandle) -> (r: Option<EngineHandle>)
        requires
            self.wf(),
        ensures
            r.is_some() <==> self.contains(h) && self.entry(h).initialized,
            r.is_some() ==> r.unwrap() == self.entry(h).engine,
    {
        match self.find(h) {
            Some(i) => {
                if self.windows[i].initialized {
                    Some(self.windows[i].engine)
                } else {
                    None
                }
            },
            None => None,
        }
    }

    /// A request to show window `h`; returns the native call to make.
    pub fn show(&mut self, h: WindowHandle) -> (r: Result<NativeVisibility, PlatformError>)
        requires
            old(self).wf(),
        ensures
            final(self).wf(),
            final(self).next_window == old(self).next_window,
            final(self).next_engine == old(self).next_engine,
            r.is_err() <==> !old(self).contains(h),
            r.is_err() ==> r == Err::<NativeVisibility, PlatformError>(PlatformError::NoWindow)
                && final(self).windows@ == old(self).windows@,
            r.is_ok() ==> ({
                let i = window_index(old(self).windows@, h);
                let w = old(self).windows@[i];
                let (v, a) = show_step(w.visibility);
                &&& r.unwrap() == a
                &&& final(self).windows@ == old(self).windows@.update(i, with_visibility(w, v))
            }),
    {
        match self.find(h) {
            Some(i) => {
                let a = self.windows[i].visibility.show();
                Ok(a)
            },
            None => Err(PlatformError::NoWindow),
        }
    }

    /// The native surface of window `h` is ready; returns the native call to
    /// make (the latched show, if any).
    pub fn ready_to_show(&mut self, h: WindowHandle) -> (r: Result<NativeVisibility, PlatformError>)
        requires
            old(self).wf(),
        ensures
            final(self).wf(),
            final(self).next_window == old(self).next_window,
            final(self).next_engine == old(self).next_engine,
            r.is_err() <==> !old(self).contains(h),
            r.is_err() ==> r == Err::<NativeVisibility, PlatformError>(PlatformError::NoWindow)
                && final(self).windows@ == old(self).windows@,
            r.is_ok() ==> ({
                let i = window_index(old(self).windows@, h);
                let w = old(self).windows@[i];
                let (v, a) = ready_step(w.visibility);
                &&& r.unwrap() == a
                &&& final(self).windows@ == old(self).windows@.update(i, with_visibility(w, v))
            }),
    {
        match self.find(h) {
            Some(i) => {
                let a = self.windows[i].visibility.ready_to_show();
                Ok(a)
            },
            None => Err(PlatformError::NoWindow),
        }
    }

    /// A request to hide window `h`; returns the native call to make.
    pub fn hide_window(&mut self, h: WindowHandle) -> (r: Result<NativeVisibility, PlatformError>)
        requires
            old(self).wf(),
        ensures
            final(self).wf(),
            final(self).next_window == old(self).next_window,
            final(self).next_engine == old(self).next_engine,
            r.is_err() <==> !old(self).contains(h),
            r.is_err() ==> r == Err::<NativeVisibility, PlatformError>(PlatformError::NoWindow)
                && final(self).windows@ == old(self).windows@,
            r.is_ok() ==> ({
                let i = window_index(old(self).windows@, h);
                let w = old(self).windows@[i];
                let (v, a) = hide_step(w.visibility);
                &&& r.unwrap() == a
                &&& final(self).windows@ == old(self).windows@.update(i, with_visibility(w, v))
            }),
    {
        match self.find(h) {
            Some(i) => {
                let a = self.windows[i].visibility.hide_window();
                Ok(a)
            },
            None => Err(PlatformError::NoWindow),
        }
    }

    /// Shows window `h` modally: `token` names the continuation that its close
    /// resolves.
    pub fn show_modal(&mut self, h: WindowHandle, token: u64) -> (r: Result<
        NativeVisibility,
        PlatformError,
    >)
        requires
            old(self).wf(),
        ensures
            final(self).wf(),
            final(self).next_window == old(self).next_window,
            final(self).next_engine == old(self).next_engine,
            r.is_err() <==> !old(self).contains(h),
            r.is_err() ==> r == Err::<NativeVisibility, PlatformError>(PlatformError::NoWindow)
                && final(self).windows@ == old(self).windows@,
            r.is_ok() ==> ({
                let i = window_index(old(self).windows@, h);
                let w = old(self).windows@[i];
                let (v, a) = show_step(w.visibility);
                &&& r.unwrap() == a
                &&& final(self).windows@ == old(self).windows@.update(
                    i,
                    WindowEntry { visibility: v, modal: Some(token), ..w },
                )
            }),
    {
        match self.find(h) {
            Some(i) => {
                self.windows[i].modal = Some(token);
                let a = self.windows[i].visibility.show();
                Ok(a)
            },
            None => Err(PlatformError::NoWindow),
        }
    }

    /// Whether window `h` waits to resolve a modal continuation.
    pub fn is_modal(&self, h: WindowHandle) -> (r: bool)
        requires
            self.wf(),
        ensures
            r == (self.contains(h) && self.entry(h).modal.is_some()),
    {
        match self.find(h) {
            Some(i) => self.windows[i].modal.is_some(),
            None => false,
        }
    }

    /// The live windows whose parent is `h`, in registry order.
    pub fn children_of(&self, h: WindowHandle) -> (r: Vec<WindowHandle>)
        requires
            self.wf(),
        ensures
            r@ == children_in(self.windows@, h),
            forall|c: WindowHandle|
                r@.contains(c) <==> exists|i: int|
                    0 <= i < self.windows@.len() && (#[trigger] self.windows@[i]).parent == Some(h)
                        && self.windows@[i].handle == c,
    {
        let mut r: Vec<WindowHandle> = Vec::new();
        let mut k: usize = 0;
        while k < self.windows.len()
            invariant
                k <= self.windows@.len(),
                r@ == children_in(self.windows@.subrange(0, k as int), h),
                forall|c: WindowHandle|
                    r@.contains(c) <==> exists|i: int|
                        0 <= i < k && (#[trigger] self.windows@[i]).parent == Some(h)
                            && self.windows@[i].handle == c,
            decreases self.windows@.len() - k,
        {
            let ghost before = r@;
            proof {
                let w = self.windows@.subrange(0, k + 1);
                assert(w.drop_last() =~= self.windows@.subrange(0, k as int));
                assert(w.last() == self.windows@[k as int]);
            }
            let is_child = match self.windows[k].parent {
                Some(p) => p.0 == h.0,
                None => false,
            };
            if is_child {
                r.push(self.windows[k].handle);
                proof {
                    assert forall|c: WindowHandle| r@.contains(c) <==> exists|i: int|
                        0 <= i < k + 1 && (#[trigger] self.windows@[i]).parent == Some(h)
                            && self.windows@[i].handle == c by {
                        if r@.contains(c) {
                            let w = choose|w: int| 0 <= w < r@.len() && r@[w] == c;
                            if w < before.len() {
                                assert(before[w] == c);
                                assert(before.contains(c));
                            } else {
                                assert(self.windows@[k as int].handle == c);
                            }
                        }
                        if exists|i: int| 0 <= i < k + 1 && (#[trigger] self.windows@[i]).parent == Some(h)
                            && self.windows@[i].handle == c {
                            let i = choose|i: int| 0 <= i < k + 1 && (#[trigger] self.windows@[i]).parent == Some(h)
                                && self.windows@[i].handle == c;
                            if i < k {
                                assert(before.contains(c));
                                let w = choose|w: int| 0 <= w < before.len() && before[w] == c;
                                assert(r@[w] == c);
                            } else {
                                assert(r@[before.len() as int] == c);
                            }
                        }
                    }
                }
            } else {
                proof {
                    assert forall|c: WindowHandle| r@.contains(c) <==> exists|i: int|
                        0 <= i < k + 1 && (#[trigger] self.windows@[i]).parent == Some(h)
                            && self.windows@[i].handle == c by {
                        if exists|i: int| 0 <= i < k + 1 && (#[trigger] self.windows@[i]).parent == Some(h)
                            && self.windows@[i].handle == c {
                            let i = choose|i: int| 0 <= i < k + 1 && (#[trigger] self.windows@[i]).parent == Some(h)
                                && self.windows@[i].handle == c;
                            assert(i < k);
                        }
                    }
                }
            }
            k = k + 1;
        }
        proof {
            assert(self.windows@.subrange(0, self.windows@.len() as int) =~= self.windows@);
        }
        r
    }

    /// Closes window `h`, resolving a pending modal continuation with
    /// `result` (none for a plain close). The continuation is resolved at
    /// most once: a later close finds none. The native close is asked for
    /// only the first time, and every child window is to be closed as well.
    fn close_window(&mut self, h: WindowHandle, result: Option<Vec<u8>>) -> (r: Result<
        CloseOutcome,
        PlatformError,
    >)
        requires
            old(self).wf(),
        ensures
            final(self).wf(),
            final(self).next_window == old(self).next_window,
            final(self).next_engine == old(self).next_engine,
            r.is_err() <==> !old(self).contains(h),
            r.is_err() ==> r == Err::<CloseOutcome, PlatformError>(PlatformError::NoWindow)
                && final(self).windows@ == old(self).windows@,
            r.is_ok() ==> ({
                let i = window_index(old(self).windows@, h);
                let w = old(self).windows@[i];
                let out = r.unwrap();
                &&& out.completion.is_some() == resolved_token(w).is_some()
                &&& out.completion.is_some() ==> out.completion.unwrap().token == resolved_token(
                    w,
                ).unwrap() && out.completion.unwrap().result == result
                &&& out.close_native == !w.closing
                &&& out.children@ == children_in(old(self).windows@, h)
                &&& forall|c: WindowHandle|
                    out.children@.contains(c) <==> exists|j: int|
                        0 <= j < old(self).windows@.len() && (#[trigger] old(self).windows@[j]).parent == Some(h) && old(self).windows@[j].handle == c
                &&& final(self).windows@ == old(self).windows@.update(i, closed_entry(w))
            }),
    {
        match self.find(h) {
            Some(i) => {
                let children = self.children_of(h);
                let completion = match self.windows[i].modal {
                    Some(token) => Some(ModalCompletion { token, result }),
                    None => None,
                };
                let close_native = !self.windows[i].closing;
                self.windows[i].modal = None;
                self.windows[i].closing = true;
                Ok(CloseOutcome { completion, close_native, children })
            },
            None => Err(PlatformError::NoWindow),
        }
    }

    /// Closes window `h`; a pending modal continuation is resolved with "no
    /// result".
    pub fn close(&mut self, h: WindowHandle) -> (r: Result<CloseOutcome, PlatformError>)
        requires
            old(self).wf(),
        ensures
            final(self).wf(),
            final(self).next_window == old(self).next_window,
            final(self).next_engine == old(self).next_engine,
            r.is_err() <==> !old(self).contains(h),
            r.is_err() ==> r == Err::<CloseOutcome, PlatformError>(PlatformError::NoWindow)
                && final(self).windows@ == old(self).windows@,
            r.is_ok() ==> ({
                let i = window_index(old(self).windows@, h);
                let w = old(self).windows@[i];
                let out = r.unwrap();
                &&& out.completion.is_some() == resolved_token(w).is_some()
                &&& out.completion.is_some() ==> out.completion.unwrap().token == resolved_token(
                    w,
                ).unwrap() && out.completion.unwrap().result.is_none()
                &&& out.close_native == !w.closing
                &&& out.children@ == children_in(old(self).windows@, h)
                &&& forall|c: WindowHandle|
                    out.children@.contains(c) <==> exists|j: int|
                        0 <= j < old(self).windows@.len() && (#[trigger] old(self).windows@[j]).parent == Some(h) && old(self).windows@[j].handle == c
                &&& final(self).windows@ == old(self).windows@.update(i, closed_entry(w))
            }),
    {
        self.close_window(h, None)
    }

    /// Closes window `h`, resolving its pending modal continuation with
    /// `result`.
    pub fn close_with_result(&mut self, h: WindowHandle, result: Vec<u8>) -> (r: Result<
        CloseOutcome,
        PlatformError,
    >)
        requires
            old(self).wf(),
        ensures
            final(self).wf(),
            final(self).next_window == old(self).next_window,
            final(self).next_engine == old(self).next_engine,
            r.is_err() <==> !old(self).contains(h),
            r.is_err() ==> r == Err::<CloseOutcome, PlatformError>(PlatformError::NoWindow)
                && final(self).windows@ == old(self).windows@,
            r.is_ok() ==> ({
                let i = window_index(old(self).windows@, h);
                let w = old(self).windows@[i];
                let out = r.unwrap();
                &&& out.completion.is_some() == resolved_token(w).is_some()
                &&& out.completion.is_some() ==> out.completion.unwrap().token == resolved_token(
                    w,
                ).unwrap() && out.completion.unwrap().result == Some(result)
                &&& out.close_native == !w.closing
                &&& out.children@ == children_in(old(self).windows@, h)
                &&& forall|c: WindowHandle|
                    out.children@.contains(c) <==> exists|j: int|
                        0 <= j < old(self).windows@.len() && (#[trigger] old(self).windows@[j]).parent == Some(h) && old(self).windows@[j].handle == c
                &&& final(self).windows@ == old(self).windows@.update(i, closed_entry(w))
            }),
    {
        self.close_window(h, Some(result))
    }

    /// The native window `h` will close: the window leaves the registry for
    /// good, and its engine is returned to be torn down.
    pub fn will_close(&mut self, h: WindowHandle) -> (r: Result<EngineHandle, PlatformError>)
        requires
            old(self).wf(),
        ensures
            final(self).wf(),
            r.is_err() <==> !old(self).contains(h),
            r.is_err() ==> r == Err::<EngineHandle, PlatformError>(PlatformError::NoWindow)
                && final(self).windows@ == old(self).windows@,
            r.is_ok() ==> ({
                let i = window_index(old(self).windows@, h);
                &&& r.unwrap() == old(self).windows@[i].engine
                &&& final(self).windows@ == old(self).windows@.remove(i)
                &&& !final(self).contains(h)
            }),
            final(self).next_window == old(self).next_window,
            final(self).next_engine == old(self).next_engine,
    {
        match self.find(h) {
            Some(i) => {
                let ghost before = self.windows@;
                let gone = self.windows.remove(i);
                proof {
                    if self.contains(h) {
                        let d = window_index(self.windows@, h);
                        assert(self.windows@[d].handle == h);
                        if d < i {
                            assert(before[d].handle == h);
                        } else {
                            assert(before[d + 1].handle == h);
                        }
                    }
                    assert forall|a: int| 0 <= a < self.windows@.len() implies (if a < i {
                        self.windows@[a] == before[a]
                    } else {
                        self.windows@[a] == before[a + 1]
                    }) by {}
                }
                Ok(gone.engine)
            },
            None => Err(PlatformError::NoWindow),
        }
    }
}

} // verus!
