//! Per-window visibility: showing waits until the native surface is ready to
//! show, a show requested earlier is latched, and no native call is made for
//! a state that already holds.
use vstd::prelude::*;

verus! {

/// The visibility flags of one window.
#[derive(Clone, Copy, Debug, PartialEq, Eq, Structural)]
pub struct Visibility {
    /// The native surface has produced a correctly sized frame.
    pub ready_to_show: bool,
    /// A show arrived before readiness and waits for it.
    pub show_requested: bool,
    /// The window is on screen.
    pub visible: bool,
}

/// The native call that a visibility step asks for.
#[derive(Clone, Copy, Debug, PartialEq, Eq, Structural)]
pub enum NativeVisibility {
    Nothing,
    Show,
    Hide,
}

/// A window starts neither ready, nor requested, nor visible.
pub open spec fn initial_visibility() -> Visibility {
    Visibility { ready_to_show: false, show_requested: false, visible: false }
}

/// Every reachable state: a visible window has no latched request and was
/// ready.
pub open spec fn visibility_wf(s: Visibility) -> bool {
    s.visible ==> s.ready_to_show && !s.show_requested
}

pub open spec fn show_step(s: Visibility) -> (Visibility, NativeVisibility) {
    if s.visible {
        (s, NativeVisibility::Nothing)
    } else if s.ready_to_show {
        (Visibility { visible: true, show_requested: false, ..s }, NativeVisibility::Show)
    } else {
        (Visibility { show_requested: true, ..s }, NativeVisibility::Nothing)
    }
}

pub open spec fn ready_step(s: Visibility) -> (Visibility, NativeVisibility) {
    if s.show_requested && !s.visible {
        (
            Visibility { ready_to_show: true, show_requested: false, visible: true },
            NativeVisibility::Show,
        )
    } else {
        (Visibility { ready_to_show: true, ..s }, NativeVisibility::Nothing)
    }
}

pub open spec fn hide_step(s: Visibility) -> (Visibility, NativeVisibility) {
    if s.visible {
        (Visibility { visible: false, show_requested: false, ..s }, NativeVisibility::Hide)
    } else {
        (Visibility { show_requested: false, ..s }, NativeVisibility::Nothing)
    }
}

impl Visibility {
    pub fn new() -> (r: Visibility)
        ensures
            r == initial_visibility(),
    {
        Visibility { ready_to_show: false, show_requested: false, visible: false }
    }

    /// A request to show: shows at once when ready, else latches the request.
    pub fn show(&mut self) -> (r: NativeVisibility)
        ensures
            (*final(self), r) == show_step(*old(self)),
    {
        if self.visible {
            NativeVisibility::Nothing
        } else if self.ready_to_show {
            self.visible = true;
            self.show_requested = false;
            NativeVisibility::Show
        } else {
            self.show_requested = true;
            NativeVisibility::Nothing
        }
    }

    /// The native surface is ready: a latched show happens now.
    pub fn ready_to_show(&mut self) -> (r: NativeVisibility)
        ensures
            (*final(self), r) == ready_step(*old(self)),
    {
        self.ready_to_show = true;
        if self.show_requested && !self.visible {
            self.show_requested = false;
            self.visible = true;
            NativeVisibility::Show
        } else {
            NativeVisibility::Nothing
        }
    }

    /// A request to hide: hides a visible window, cancels a latched show.
    pub fn hide_window(&mut self) -> (r: NativeVisibility)
        ensures
            (*final(self), r) == hide_step(*old(self)),
    {
        if self.visible {
            self.visible = false;
            self.show_requested = false;
            NativeVisibility::Hide
        } else {
            self.show_requested = false;
            NativeVisibility::Nothing
        }
    }
}

/// Each step keeps the states that can be reached.
pub proof fn lemma_steps_keep_wf(s: Visibility)
    requires
        visibility_wf(s),
    ensures
        visibility_wf(show_step(s).0),
        visibility_wf(ready_step(s).0),
        visibility_wf(hide_step(s).0),
{
}

/// Showing twice in a row makes at most one native show, and exactly one
/// when the window was ready and not yet visible; the second show makes no
/// native call.
pub proof fn lemma_show_twice(s: Visibility)
    ensures
        show_step(show_step(s).0).1 == NativeVisibility::Nothing,
        show_step(show_step(s).0).0 == show_step(s).0,
        s.ready_to_show && !s.visible ==> show_step(s).1 == NativeVisibility::Show,
{
}

/// A show and a readiness report converge to the same visible state in
/// either order, with exactly one native show.
pub proof fn lemma_show_ready_converge(s: Visibility)
    requires
        visibility_wf(s),
        !s.visible,
        !s.ready_to_show,
        !s.show_requested,
    ensures
        ready_step(show_step(s).0).0 == show_step(ready_step(s).0).0,
        ready_step(show_step(s).0).0.visible,
        show_step(s).1 == NativeVisibility::Nothing,
        ready_step(show_step(s).0).1 == NativeVisibility::Show,
        ready_step(s).1 == NativeVisibility::Nothing,
        show_step(ready_step(s).0).1 == NativeVisibility::Show,
{
}

/// A hide before readiness cancels a latched show: when readiness comes the
/// window stays hidden and no native show is made.
pub proof fn lemma_hide_cancels_latched_show(s: Visibility)
    requires
        visibility_wf(s),
        !s.ready_to_show,
    ensures
        ({
            let latched = show_step(s).0;
            let hidden = hide_step(latched);
            let readied = ready_step(hidden.0);
            &&& hidden.1 == NativeVisibility::Nothing
            &&& readied.1 == NativeVisibility::Nothing
            &&& !readied.0.visible
        }),
{
}

} // verus!
