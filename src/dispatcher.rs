//! The message dispatcher: per-engine named channels with one handler each,
//! outbound calls that are answered at most once, and single-use reply slots.
use vstd::prelude::*;
use crate::handle::EngineHandle;

verus! {

/// The handler installed for one channel of one engine.
pub struct HandlerEntry {
    pub engine: EngineHandle,
    pub channel: String,
    pub handler: u64,
}

/// An outbound call that waits for its reply.
pub struct PendingCall {
    pub id: u64,
    pub engine: EngineHandle,
    pub channel: String,
}

/// A single-use slot for the reply to one inbound call. A second reply is
/// ignored: `send` reports whether this one was delivered.
pub struct ReplySlot {
    pub replied: bool,
}

impl ReplySlot {
    pub fn new() -> (r: ReplySlot)
        ensures
            !r.replied,
    {
        ReplySlot { replied: false }
    }

    /// Marks the reply sent; true only the first time.
    pub fn send(&mut self) -> (r: bool)
        ensures
            r == !old(self).replied,
            final(self).replied,
    {
        if self.replied {
            false
        } else {
            self.replied = true;
            true
        }
    }
}

/// Routes inbound calls to handlers and inbound replies to waiting calls.
pub struct MessageDispatcher {
    pub handlers: Vec<HandlerEntry>,
    pub pending: Vec<PendingCall>,
    pub next_call: u64,
}

pub open spec fn is_key(h: HandlerEntry, e: EngineHandle, c: Seq<char>) -> bool {
    h.engine == e && h.channel@ == c
}

/// The position of the call `id` in `p`, or -1.
pub open spec fn call_index(p: Seq<PendingCall>, id: u64) -> int {
    if exists|i: int| 0 <= i < p.len() && p[i].id == id {
        choose|i: int| 0 <= i < p.len() && p[i].id == id
    } else {
        -1
    }
}

impl MessageDispatcher {
    pub open spec fn wf(&self) -> bool {
        &&& forall|i: int, j: int|
            0 <= i < self.handlers@.len() && 0 <= j < self.handlers@.len() && i != j ==> !is_key(
                self.handlers@[i],
                self.handlers@[j].engine,
                self.handlers@[j].channel@,
            )
        &&& forall|i: int, j: int|
            0 <= i < self.pending@.len() && 0 <= j < self.pending@.len() && i != j
                ==> self.pending@[i].id != self.pending@[j].id
        &&& forall|i: int| 0 <= i < self.pending@.len() ==> (#[trigger] self.pending@[i]).id < self.next_call
    }

    /// The handler installed for channel `c` of engine `e`.
    pub open spec fn lookup(&self, e: EngineHandle, c: Seq<char>) -> Option<u64> {
        if exists|i: int| 0 <= i < self.handlers@.len() && is_key(self.handlers@[i], e, c) {
            Some(
                self.handlers@[choose|i: int|
                    0 <= i < self.handlers@.len() && is_key(self.handlers@[i], e, c)].handler,
            )
        } else {
            None
        }
    }

    /// Whether call `id` waits for its reply.
    pub open spec fn is_pending(&self, id: u64) -> bool {
        exists|i: int| 0 <= i < self.pending@.len() && self.pending@[i].id == id
    }

    pub fn new() -> (r: MessageDispatcher)
        ensures
            r.wf(),
            forall|e: EngineHandle, c: Seq<char>| r.lookup(e, c).is_none(),
            forall|id: u64| !r.is_pending(id),
    {
        MessageDispatcher { handlers: Vec::new(), pending: Vec::new(), next_call: 0 }
    }

    fn find(&self, e: EngineHandle, c: &String) -> (r: Option<usize>)
        requires
            self.wf(),
        ensures
            r.is_some() == self.lookup(e, c@).is_some(),
            r.is_some() ==> r.unwrap() < self.handlers@.len() && is_key(
                self.handlers@[r.unwrap() as int],
                e,
                c@,
            ) && self.lookup(e, c@) == Some(self.handlers@[r.unwrap() as int].handler),
    {
        let mut i: usize = 0;
        while i < self.handlers.len()
            invariant
                self.wf(),
                i <= self.handlers@.len(),
                forall|k: int| 0 <= k < i ==> !is_key(self.handlers@[k], e, c@),
            decreases self.handlers@.len() - i,
        {
            if self.handlers[i].engine.0 == e.0 && self.handlers[i].channel == *c {
                proof {
                    let k = choose|k: int|
                        0 <= k < self.handlers@.len() && is_key(self.handlers@[k], e, c@);
                    assert(k == i as int);
                }
                return Some(i);
            }
            i = i + 1;
        }
        None
    }

    /// The handler that an inbound call on channel `c` of engine `e` goes
    /// to; `None` means the call is dropped.
    pub fn dispatch(&self, e: EngineHandle, c: &String) -> (r: Option<u64>)
        requires
            self.wf(),
        ensures
            r == self.lookup(e, c@),
    {
        match self.find(e, c) {
            Some(i) => Some(self.handlers[i].handler),
            None => None,
        }
    }

    /// Installs `handler` for channel `c` of engine `e`, replacing the one
    /// there, which is returned.
    pub fn register_handler(&mut self, e: EngineHandle, c: String, handler: u64) -> (r: Option<
        u64,
    >)
        requires
            old(self).wf(),
        ensures
            final(self).wf(),
            r == old(self).lookup(e, c@),
            final(self).lookup(e, c@) == Some(handler),
            forall|e2: EngineHandle, c2: Seq<char>|
                !(e2 == e && c2 == c@) ==> final(self).lookup(e2, c2) == old(self).lookup(e2, c2),
            final(self).pending@ == old(self).pending@,
            final(self).next_call == old(self).next_call,
    {
        let ghost before = self.handlers@;
        let ghost key = c@;
        match self.find(e, &c) {
            Some(i) => {
                let prev = self.handlers[i].handler;
                self.handlers[i].handler = handler;
                proof {
                    assert forall|e2: EngineHandle, c2: Seq<char>|
                        !(e2 == e && c2 == key) implies self.lookup(e2, c2) == old(self).lookup(
                        e2,
                        c2,
                    ) by {
                        assert forall|k: int| 0 <= k < before.len() implies is_key(
                            self.handlers@[k],
                            e2,
                            c2,
                        ) == is_key(before[k], e2, c2) by {}
                        if exists|k: int| 0 <= k < before.len() && is_key(before[k], e2, c2) {
                            let k = choose|k: int| 0 <= k < before.len() && is_key(before[k], e2, c2);
                            assert(k != i);
                            assert(is_key(self.handlers@[k], e2, c2));
                        }
                    }
                    assert(is_key(self.handlers@[i as int], e, key));
                }
                Some(prev)
            },
            None => {
                self.handlers.push(HandlerEntry { engine: e, channel: c, handler });
                proof {
                    let n = before.len() as int;
                    assert(is_key(self.handlers@[n], e, key));
                    assert forall|e2: EngineHandle, c2: Seq<char>|
                        !(e2 == e && c2 == key) implies self.lookup(e2, c2) == old(self).lookup(
                        e2,
                        c2,
                    ) by {
                        if exists|k: int| 0 <= k < before.len() && is_key(before[k], e2, c2) {
                            let k = choose|k: int| 0 <= k < before.len() && is_key(before[k], e2, c2);
                            assert(is_key(self.handlers@[k], e2, c2));
                        }
                        if exists|k: int| 0 <= k < self.handlers@.len() && is_key(self.handlers@[k], e2, c2) {
                            let k = choose|k: int| 0 <= k < self.handlers@.len() && is_key(self.handlers@[k], e2, c2);
                            assert(k != n);
                            assert(is_key(before[k], e2, c2));
                        }
                    }
                }
                None
            },
        }
    }

    /// Removes the handler of channel `c` of engine `e`; removing one that
    /// is not there changes nothing. Returns whether one was removed.
    pub fn unregister_handler(&mut self, e: EngineHandle, c: &String) -> (r: bool)
        requires
            old(self).wf(),
        ensures
            final(self).wf(),
            r == old(self).lookup(e, c@).is_some(),
            final(self).lookup(e, c@).is_none(),
            forall|e2: EngineHandle, c2: Seq<char>|
                !(e2 == e && c2 == c@) ==> final(self).lookup(e2, c2) == old(self).lookup(e2, c2),
            final(self).pending@ == old(self).pending@,
            final(self).next_call == old(self).next_call,
    {
        let ghost before = self.handlers@;
        match self.find(e, c) {
            Some(i) => {
                let _gone = self.handlers.remove(i);
                proof {
                    assert forall|k: int| 0 <= k < self.handlers@.len() implies (if k < i {
                        self.handlers@[k] == before[k]
                    } else {
                        self.handlers@[k] == before[k + 1]
                    }) by {}
                    if exists|k: int| 0 <= k < self.handlers@.len() && is_key(self.handlers@[k], e, c@) {
                        let k = choose|k: int| 0 <= k < self.handlers@.len() && is_key(self.handlers@[k], e, c@);
                        if k < i {
                            assert(is_key(before[k], e, c@));
                        } else {
                            assert(is_key(before[k + 1], e, c@));
                        }
                    }
                    assert forall|e2: EngineHandle, c2: Seq<char>|
                        !(e2 == e && c2 == c@) implies self.lookup(e2, c2) == old(self).lookup(
                        e2,
                        c2,
                    ) by {
                        if exists|k: int| 0 <= k < before.len() && is_key(before[k], e2, c2) {
                            let k = choose|k: int| 0 <= k < before.len() && is_key(before[k], e2, c2);
                            assert(k != i);
                            let k2 = if k < i { k } else { k - 1 };
                            assert(is_key(self.handlers@[k2], e2, c2));
                            let d = choose|d: int| 0 <= d < self.handlers@.len() && is_key(self.handlers@[d], e2, c2);
                            let d2 = if d < i { d } else { d + 1 };
                            assert(is_key(before[d2], e2, c2));
                            assert(d2 == k);
                        }
                        if exists|k: int| 0 <= k < self.handlers@.len() && is_key(self.handlers@[k], e2, c2) {
                            let k = choose|k: int| 0 <= k < self.handlers@.len() && is_key(self.handlers@[k], e2, c2);
                            if k < i {
                                assert(is_key(before[k], e2, c2));
                            } else {
                                assert(is_key(before[k + 1], e2, c2));
                            }
                        }
                    }
                }
                true
            },
            None => false,
        }
    }

    /// Issues an outbound call on channel `c` of engine `e` and returns the
    /// id under which its reply is awaited; `None` once ids are used up.
    pub fn call_method(&mut self, e: EngineHandle, c: String) -> (r: Option<u64>)
        requires
            old(self).wf(),
        ensures
            final(self).wf(),
            final(self).handlers@ == old(self).handlers@,
            r.is_some() <==> old(self).next_call < u64::MAX,
            r.is_none() ==> final(self).pending@ == old(self).pending@,
            r.is_some() ==> r.unwrap() == old(self).next_call && !old(self).is_pending(r.unwrap())
                && final(self).is_pending(r.unwrap()),
            r.is_some() ==> final(self).pending@.len() == old(self).pending@.len() + 1
                && final(self).pending@.last().id == r.unwrap()
                && final(self).pending@.last().engine == e
                && final(self).pending@.last().channel@ == c@
                && final(self).pending@.drop_last() == old(self).pending@,
    {
        if self.next_call == u64::MAX {
            return None;
        }
        let id = self.next_call;
        let ghost before = self.pending@;
        self.next_call = self.next_call + 1;
        self.pending.push(PendingCall { id, engine: e, channel: c });
        proof {
            assert(self.pending@.drop_last() =~= before);
            if exists|i: int| 0 <= i < before.len() && before[i].id == id {
                let i = choose|i: int| 0 <= i < before.len() && before[i].id == id;
                assert(before[i].id < id);
            }
            assert(self.pending@[before.len() as int].id == id);
        }
        Some(id)
    }

    /// A reply arrived for call `id`: the waiting call is returned and
    /// forgotten, so that it is answered at most once. A reply for no
    /// waiting call gives `None`.
    pub fn on_reply(&mut self, id: u64) -> (r: Option<PendingCall>)
        requires
            old(self).wf(),
        ensures
            final(self).wf(),
            final(self).handlers@ == old(self).handlers@,
            r.is_some() == old(self).is_pending(id),
            r.is_some() ==> r.unwrap() == old(self).pending@[call_index(old(self).pending@, id)]
                && final(self).pending@ == old(self).pending@.remove(
                call_index(old(self).pending@, id),
            ),
            r.is_none() ==> final(self).pending@ == old(self).pending@,
            !final(self).is_pending(id),
    {
        let ghost before = self.pending@;
        let mut i: usize = 0;
        while i < self.pending.len()
            invariant
                self.wf(),
                *self == *old(self),
                self.pending@ == before,
                i <= self.pending@.len(),
                forall|k: int| 0 <= k < i ==> self.pending@[k].id != id,
            decreases self.pending@.len() - i,
        {
            if self.pending[i].id == id {
                proof {
                    let c = call_index(before, id);
                    assert(before[c].id == id);
                    assert(c == i as int);
                }
                let call = self.pending.remove(i);
                proof {
                    assert forall|a: int| 0 <= a < self.pending@.len() implies (if a < i {
                        self.pending@[a] == before[a]
                    } else {
                        self.pending@[a] == before[a + 1]
                    }) by {}
                    if self.is_pending(id) {
                        let d = choose|d: int| 0 <= d < self.pending@.len() && self.pending@[d].id == id;
                        if d < i {
                            assert(before[d].id == id);
                        } else {
                            assert(before[d + 1].id == id);
                        }
                    }
                }
                return Some(call);
            }
            i = i + 1;
        }
        None
    }
}

} // verus!
