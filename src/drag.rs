//! Drag and drop sessions: effect sets, the target side's pending-effect
//! latch and the source side's session.
use vstd::prelude::*;
use crate::error::PlatformError;
use crate::structs::{Point, Rect};

verus! {

/// What a drop does with the dragged data.
#[derive(Clone, Copy, Debug, PartialEq, Eq, Structural)]
pub enum DragEffect {
    NoEffect,
    Copy,
    Link,
    Move,
}

/// One typed value of a drag's property bag.
#[derive(Debug)]
pub struct DragProperty {
    pub key: String,
    pub value: Vec<u8>,
}

/// The property bag that a drag carries.
#[derive(Debug)]
pub struct DragData {
    pub properties: Vec<DragProperty>,
}

/// What a drop target learns while a drag moves over it.
#[derive(Debug)]
pub struct DraggingInfo {
    pub location: Point,
    pub data: DragData,
    pub allowed_effects: Vec<DragEffect>,
}

/// The application's answer to a dragging update.
#[derive(Clone, Copy, Debug, PartialEq, Eq, Structural)]
pub struct DragResult {
    pub effect: DragEffect,
}

/// A bitmap to show under the cursor while dragging.
#[derive(Debug)]
pub struct ImageData {
    pub width: i32,
    pub height: i32,
    pub bytes_per_row: i32,
    pub data: Vec<u8>,
}

/// A request to start a drag from a window.
#[derive(Debug)]
pub struct DragRequest {
    pub image: ImageData,
    pub rect: Rect,
    pub allowed_effects: Vec<DragEffect>,
    pub data: DragData,
}

pub const DROP_EFFECT_NONE: u32 = 0;
pub const DROP_EFFECT_COPY: u32 = 1;
pub const DROP_EFFECT_MOVE: u32 = 2;
pub const DROP_EFFECT_LINK: u32 = 4;

/// The bit of an effect in a native effect mask.
pub open spec fn effect_bit(e: DragEffect) -> u32 {
    match e {
        DragEffect::NoEffect => DROP_EFFECT_NONE,
        DragEffect::Copy => DROP_EFFECT_COPY,
        DragEffect::Link => DROP_EFFECT_LINK,
        DragEffect::Move => DROP_EFFECT_MOVE,
    }
}

/// The effects that a native mask allows, in the order copy, move, link.
pub open spec fn effects_of_mask(mask: u32) -> Seq<DragEffect> {
    let c: Seq<DragEffect> = if mask & DROP_EFFECT_COPY == DROP_EFFECT_COPY {
        seq![DragEffect::Copy]
    } else {
        seq![]
    };
    let m: Seq<DragEffect> = if mask & DROP_EFFECT_MOVE == DROP_EFFECT_MOVE {
        seq![DragEffect::Move]
    } else {
        seq![]
    };
    let l: Seq<DragEffect> = if mask & DROP_EFFECT_LINK == DROP_EFFECT_LINK {
        seq![DragEffect::Link]
    } else {
        seq![]
    };
    c + m + l
}

/// The native mask of a list of effects: the union of their bits.
pub open spec fn mask_of_effects(s: Seq<DragEffect>) -> u32
    decreases s.len(),
{
    if s.len() == 0 {
        0
    } else {
        mask_of_effects(s.drop_last()) | effect_bit(s.last())
    }
}

/// The effects that a native mask allows.
pub fn convert_drop_effect_mask(mask: u32) -> (r: Vec<DragEffect>)
    ensures
        r@ == effects_of_mask(mask),
{
    let mut res: Vec<DragEffect> = Vec::new();
    if mask & DROP_EFFECT_COPY == DROP_EFFECT_COPY {
        res.push(DragEffect::Copy);
    }
    if mask & DROP_EFFECT_MOVE == DROP_EFFECT_MOVE {
        res.push(DragEffect::Move);
    }
    if mask & DROP_EFFECT_LINK == DROP_EFFECT_LINK {
        res.push(DragEffect::Link);
    }
    proof {
        assert(res@ =~= effects_of_mask(mask));
    }
    res
}

/// The native bit of one effect.
pub fn convert_drag_effect(effect: &DragEffect) -> (r: u32)
    ensures
        r == effect_bit(*effect),
{
    match effect {
        DragEffect::NoEffect => DROP_EFFECT_NONE,
        DragEffect::Copy => DROP_EFFECT_COPY,
        DragEffect::Link => DROP_EFFECT_LINK,
        DragEffect::Move => DROP_EFFECT_MOVE,
    }
}

/// The native mask of a list of effects.
pub fn convert_drag_effects(effects: &Vec<DragEffect>) -> (r: u32)
    ensures
        r == mask_of_effects(effects@),
{
    let mut res: u32 = 0;
    let mut i: usize = 0;
    while i < effects.len()
        invariant
            i <= effects@.len(),
            res == mask_of_effects(effects@.subrange(0, i as int)),
        decreases effects@.len() - i,
    {
        proof {
            let s = effects@.subrange(0, i + 1);
            assert(s.drop_last() =~= effects@.subrange(0, i as int));
            assert(s.last() == effects@[i as int]);
        }
        res = res | convert_drag_effect(&effects[i]);
        i = i + 1;
    }
    proof {
        assert(effects@.subrange(0, effects@.len() as int) =~= effects@);
    }
    res
}

/// The drop-target side of one window. While a drag is over the window the
/// operating system polls for an effect synchronously, while the
/// application's answer arrives later: the last answer for the current
/// session is held in a latch, and until one arrives the effect is `NoEffect`.
#[derive(Clone, Copy, Debug, PartialEq, Eq, Structural)]
pub struct DropTargetState {
    /// Numbers the sessions; an answer names the session it belongs to.
    pub session: u64,
    /// A drag is over the window.
    pub active: bool,
    /// The latest answer for the current session.
    pub pending_effect: Option<DragEffect>,
}

/// The effect the operating system gets when it polls the latch.
pub open spec fn sampled_effect(s: DropTargetState) -> DragEffect {
    if s.active && s.pending_effect.is_some() {
        s.pending_effect.unwrap()
    } else {
        DragEffect::NoEffect
    }
}

pub open spec fn next_session(n: u64) -> u64 {
    if n == u64::MAX {
        0
    } else {
        (n + 1) as u64
    }
}

impl DropTargetState {
    pub fn new() -> (r: DropTargetState)
        ensures
            r == (DropTargetState { session: 0, active: false, pending_effect: None }),
    {
        DropTargetState { session: 0, active: false, pending_effect: None }
    }

    /// A drag enters the window: a new session starts, with no answer yet.
    /// Returns the session that answers must name.
    pub fn dragging_entered(&mut self) -> (r: u64)
        ensures
            *final(self) == (DropTargetState {
                session: next_session(old(self).session),
                active: true,
                pending_effect: None,
            }),
            r == final(self).session,
    {
        self.session = if self.session == u64::MAX {
            0
        } else {
            self.session + 1
        };
        self.active = true;
        self.pending_effect = None;
        self.session
    }

    /// The application answered for `session` with `effect`; an answer for
    /// another session, or after the drag has left, is ignored.
    pub fn set_pending_effect(&mut self, session: u64, effect: DragEffect)
        ensures
            old(self).active && session == old(self).session ==> *final(self) == (
            DropTargetState { pending_effect: Some(effect), ..*old(self) }),
            !(old(self).active && session == old(self).session) ==> *final(self) == *old(self),
    {
        if self.active && session == self.session {
            self.pending_effect = Some(effect);
        }
    }

    /// The application's reply to a dragging update of `session` arrived:
    /// `reply` is the effect it chose, or `None` when the reply could not be
    /// read, which counts as `NoEffect`. The answer is latched as by
    /// `set_pending_effect`.
    pub fn on_dragging_updated_reply(&mut self, session: u64, reply: Option<DragEffect>)
        ensures
            ({
                let effect = match reply {
                    Some(e) => e,
                    None => DragEffect::NoEffect,
                };
                &&& old(self).active && session == old(self).session ==> *final(self) == (
                DropTargetState { pending_effect: Some(effect), ..*old(self) })
                &&& !(old(self).active && session == old(self).session) ==> *final(self) == *old(self)
            }),
    {
        let effect = match reply {
            Some(e) => e,
            None => DragEffect::NoEffect,
        };
        self.set_pending_effect(session, effect);
    }

    /// The effect for the operating system's poll: the latched answer, or
    /// `NoEffect` while none has arrived.
    pub fn sample_effect(&self) -> (r: DragEffect)
        ensures
            r == sampled_effect(*self),
    {
        if self.active {
            match self.pending_effect {
                Some(e) => e,
                None => DragEffect::NoEffect,
            }
        } else {
            DragEffect::NoEffect
        }
    }

    /// The drag left the window: the session ends without a result.
    pub fn dragging_exited(&mut self)
        ensures
            *final(self) == (DropTargetState {
                active: false,
                pending_effect: None,
                ..*old(self)
            }),
    {
        self.active = false;
        self.pending_effect = None;
    }

    /// The drag was dropped on the window: the session ends, and the effect
    /// sampled at that moment is returned.
    pub fn perform_drop(&mut self) -> (r: DragEffect)
        ensures
            r == sampled_effect(*old(self)),
            *final(self) == (DropTargetState {
                active: false,
                pending_effect: None,
                ..*old(self)
            }),
    {
        let effect = self.sample_effect();
        self.active = false;
        self.pending_effect = None;
        effect
    }
}

/// Entering a new session clears the latch: until an answer for that
/// session arrives, the sampled effect is `NoEffect`, whatever an earlier
/// session latched, and an answer naming an earlier session is ignored.
pub proof fn lemma_no_stale_effect(s: DropTargetState, stale: u64, e: DragEffect)
    requires
        stale != next_session(s.session),
    ensures
        ({
            let entered = DropTargetState {
                session: next_session(s.session),
                active: true,
                pending_effect: None,
            };
            &&& sampled_effect(entered) == DragEffect::NoEffect
            &&& sampled_effect(
                if entered.active && stale == entered.session {
                    DropTargetState { pending_effect: Some(e), ..entered }
                } else {
                    entered
                },
            ) == DragEffect::NoEffect
        }),
{
}

/// The drag-source side of one window.
#[derive(Clone, Copy, Debug, PartialEq, Eq, Structural)]
pub struct DragSourceState {
    /// A native press event is available to anchor a drag.
    pub has_press_event: bool,
    /// A drag started here is under way.
    pub dragging: bool,
}

impl DragSourceState {
    pub fn new() -> (r: DragSourceState)
        ensures
            r == (DragSourceState { has_press_event: false, dragging: false }),
    {
        DragSourceState { has_press_event: false, dragging: false }
    }

    /// A native press event arrived, or the pointer was released.
    pub fn set_press_event(&mut self, available: bool)
        ensures
            *final(self) == (DragSourceState { has_press_event: available, ..*old(self) }),
    {
        self.has_press_event = available;
    }

    /// Starts a drag; fails with `NoEventFound` when no press event anchors
    /// it.
    pub fn begin_drag_session(&mut self) -> (r: Result<(), PlatformError>)
        ensures
            old(self).has_press_event ==> r.is_ok() && *final(self) == (DragSourceState {
                dragging: true,
                ..*old(self)
            }),
            !old(self).has_press_event ==> r == Err::<(), PlatformError>(
                PlatformError::NoEventFound,
            ) && *final(self) == *old(self),
    {
        if self.has_press_event {
            self.dragging = true;
            Ok(())
        } else {
            Err(PlatformError::NoEventFound)
        }
    }

    /// The native drag ended with `effect`: it is reported once, for a drag
    /// under way, and never again.
    pub fn drag_ended(&mut self, effect: DragEffect) -> (r: Option<DragResult>)
        ensures
            old(self).dragging ==> r == Some(DragResult { effect }),
            !old(self).dragging ==> r.is_none(),
            *final(self) == (DragSourceState { dragging: false, ..*old(self) }),
    {
        if self.dragging {
            self.dragging = false;
            Some(DragResult { effect })
        } else {
            None
        }
    }
}

} // verus!
