//! The cooperative run loop: timers that can be cancelled before they fire,
//! and a submission queue for callbacks handed in from elsewhere. The loop
//! holds callbacks as values; whoever drives it takes the next one that is
//! due and runs it.
use vstd::prelude::*;
use crate::handle::INVALID_HANDLE;

verus! {

/// A callback waiting for its time.
pub struct TimerEntry<T> {
    pub handle: i64,
    pub due: u64,
    pub callback: T,
}

/// The timer table and the submission queue.
pub struct PlatformRunLoop<T> {
    pub next_handle: i64,
    pub now: u64,
    pub timers: Vec<TimerEntry<T>>,
    pub submitted: Vec<T>,
    pub running: bool,
}

/// Hands callbacks to a run loop's submission queue.
pub struct PlatformRunLoopSender {}

/// `a + b`, or the largest `u64` when that overflows.
pub open spec fn saturating_add(a: u64, b: u64) -> u64 {
    if a + b > u64::MAX {
        u64::MAX
    } else {
        (a + b) as u64
    }
}

/// Timer `i` is the next to fire at time `now`: it is due, no timer is due
/// earlier, and none before it in the table is due as early.
pub open spec fn is_next_due<T>(timers: Seq<TimerEntry<T>>, i: int, now: u64) -> bool {
    &&& 0 <= i < timers.len()
    &&& timers[i].due <= now
    &&& forall|j: int| 0 <= j < timers.len() ==> #[trigger] timers[j].due >= timers[i].due
    &&& forall|j: int| 0 <= j < i ==> #[trigger] timers[j].due > timers[i].due
}

/// Some timer is due at time `now`.
pub open spec fn any_due<T>(timers: Seq<TimerEntry<T>>, now: u64) -> bool {
    exists|j: int| 0 <= j < timers.len() && #[trigger] timers[j].due <= now
}

impl<T> PlatformRunLoop<T> {
    pub open spec fn wf(&self) -> bool {
        &&& self.next_handle >= 1
        &&& forall|i: int|
            0 <= i < self.timers@.len() ==> 1 <= (#[trigger] self.timers@[i]).handle
                < self.next_handle
        &&& forall|i: int, j: int|
            0 <= i < self.timers@.len() && 0 <= j < self.timers@.len() && i != j
                ==> self.timers@[i].handle != self.timers@[j].handle
    }

    /// Whether a timer with handle `h` waits.
    pub open spec fn has_timer(&self, h: i64) -> bool {
        exists|i: int| 0 <= i < self.timers@.len() && self.timers@[i].handle == h
    }

    pub fn new() -> (r: PlatformRunLoop<T>)
        ensures
            r.wf(),
            r.next_handle == 1,
            r.now == 0,
            r.timers@.len() == 0,
            r.submitted@.len() == 0,
            !r.running,
    {
        PlatformRunLoop {
            next_handle: 1,
            now: 0,
            timers: Vec::new(),
            submitted: Vec::new(),
            running: false,
        }
    }

    /// A fresh timer handle, or the invalid handle once they are used up.
    fn next_handle(&mut self) -> (r: i64)
        requires
            old(self).wf(),
        ensures
            final(self).wf(),
            final(self).timers@ == old(self).timers@,
            final(self).submitted@ == old(self).submitted@,
            final(self).now == old(self).now,
            final(self).running == old(self).running,
            old(self).next_handle < i64::MAX ==> r == old(self).next_handle && final(self).next_handle == old(self).next_handle + 1,
            old(self).next_handle == i64::MAX ==> r == INVALID_HANDLE && final(self).next_handle
                == old(self).next_handle,
    {
        if self.next_handle < i64::MAX {
            let r = self.next_handle;
            self.next_handle = self.next_handle + 1;
            r
        } else {
            INVALID_HANDLE
        }
    }

    /// Schedules `callback` to run `in_time` ticks from now and returns its
    /// handle; the invalid handle, with nothing scheduled, once handles are
    /// used up.
    pub fn schedule(&mut self, callback: T, in_time: u64) -> (r: i64)
        requires
            old(self).wf(),
        ensures
            final(self).wf(),
            final(self).submitted@ == old(self).submitted@,
            final(self).now == old(self).now,
            old(self).next_handle < i64::MAX ==> r == old(self).next_handle && final(self).timers@ == old(self).timers@.push(
                TimerEntry { handle: r, due: saturating_add(old(self).now, in_time), callback },
            ) && !old(self).has_timer(r),
            old(self).next_handle == i64::MAX ==> r == INVALID_HANDLE && final(self).timers@
                == old(self).timers@,
            final(self).next_handle == (if old(self).next_handle < i64::MAX {
                old(self).next_handle + 1
            } else {
                old(self).next_handle as int
            }),
    {
        let h = self.next_handle();
        if h == INVALID_HANDLE {
            return h;
        }
        let due = if self.now > u64::MAX - in_time {
            u64::MAX
        } else {
            self.now + in_time
        };
        proof {
            if self.has_timer(h) {
                let i = choose|i: int| 0 <= i < self.timers@.len() && self.timers@[i].handle == h;
                assert(self.timers@[i].handle < h);
            }
        }
        self.timers.push(TimerEntry { handle: h, due, callback });
        h
    }

    /// Cancels the timer `handle`; a callback cancelled before it fires never
    /// runs. Cancelling what is not scheduled changes nothing.
    pub fn unschedule(&mut self, handle: i64)
        requires
            old(self).wf(),
        ensures
            final(self).wf(),
            !final(self).has_timer(handle),
            final(self).submitted@ == old(self).submitted@,
            final(self).now == old(self).now,
            final(self).next_handle == old(self).next_handle,
            forall|i: int|
                0 <= i < final(self).timers@.len() ==> old(self).timers@.contains(
                    #[trigger] final(self).timers@[i],
                ),
            forall|i: int|
                0 <= i < old(self).timers@.len() && (#[trigger] old(self).timers@[i]).handle
                    != handle ==> final(self).timers@.contains(old(self).timers@[i]),
    {
        let ghost before = self.timers@;
        let mut i: usize = 0;
        while i < self.timers.len()
            invariant
                self.wf(),
                self.timers@ == before,
                before == old(self).timers@,
                self.submitted@ == old(self).submitted@,
                self.now == old(self).now,
                self.next_handle == old(self).next_handle,
                i <= self.timers@.len(),
                forall|k: int| 0 <= k < i ==> self.timers@[k].handle != handle,
            decreases self.timers@.len() - i,
        {
            if self.timers[i].handle == handle {
                let _gone = self.timers.remove(i);
                proof {
                    assert forall|a: int| 0 <= a < self.timers@.len() implies (if a < i {
                        self.timers@[a] == before[a]
                    } else {
                        self.timers@[a] == before[a + 1]
                    }) by {}
                    if self.has_timer(handle) {
                        let d = choose|d: int| 0 <= d < self.timers@.len() && self.timers@[d].handle == handle;
                        if d < i {
                            assert(before[d].handle == handle);
                        } else {
                            assert(before[d + 1].handle == handle);
                        }
                    }
                    assert forall|a: int| 0 <= a < self.timers@.len() implies before.contains(
                        #[trigger] self.timers@[a],
                    ) by {
                        if a < i {
                            assert(before[a] == self.timers@[a]);
                        } else {
                            assert(before[a + 1] == self.timers@[a]);
                        }
                    }
                    assert forall|a: int| 0 <= a < before.len() && (#[trigger] before[a]).handle
                        != handle implies self.timers@.contains(before[a]) by {
                        if a < i {
                            assert(self.timers@[a] == before[a]);
                        } else {
                            assert(a != i);
                            assert(self.timers@[a - 1] == before[a]);
                        }
                    }
                }
                return;
            }
            i = i + 1;
        }
        proof {
            assert forall|a: int| 0 <= a < self.timers@.len() implies before.contains(
                #[trigger] self.timers@[a],
            ) by {
                assert(before[a] == self.timers@[a]);
            }
            assert forall|a: int| 0 <= a < before.len() && (#[trigger] before[a]).handle
                != handle implies self.timers@.contains(before[a]) by {
                assert(self.timers@[a] == before[a]);
            }
        }
    }

    /// Advances the clock to `now` (it never goes back) and takes the next
    /// callback to run: the oldest submitted one first, else the timer due
    /// earliest (the one scheduled first among equals). `None` when nothing
    /// is due.
    pub fn take_next(&mut self, now: u64) -> (r: Option<T>)
        requires
            old(self).wf(),
        ensures
            final(self).wf(),
            final(self).now == (if now > old(self).now { now } else { old(self).now }),
            final(self).next_handle == old(self).next_handle,
            final(self).running == old(self).running,
            old(self).submitted@.len() > 0 ==> r == Some(old(self).submitted@[0])
                && final(self).submitted@ == old(self).submitted@.drop_first()
                && final(self).timers@ == old(self).timers@,
            old(self).submitted@.len() == 0 && !any_due(old(self).timers@, final(self).now) ==> r
                is None && final(self).timers@ == old(self).timers@ && final(self).submitted@
                == old(self).submitted@,
            old(self).submitted@.len() == 0 && any_due(old(self).timers@, final(self).now)
                ==> exists|i: int|
                is_next_due(old(self).timers@, i, final(self).now) && r == Some(
                    old(self).timers@[i].callback,
                ) && final(self).timers@ == old(self).timers@.remove(i) && final(self).submitted@
                    == old(self).submitted@,
    {
        if now > self.now {
            self.now = now;
        }
        if self.submitted.len() > 0 {
            let cb = self.submitted.remove(0);
            proof {
                assert(self.submitted@ =~= old(self).submitted@.drop_first());
            }
            return Some(cb);
        }
        let clock = self.now;
        let mut best: Option<usize> = None;
        let mut i: usize = 0;
        while i < self.timers.len()
            invariant
                self.wf(),
                *self == (PlatformRunLoop { now: clock, ..*old(self) }),
                i <= self.timers@.len(),
                best.is_none() ==> forall|k: int| 0 <= k < i ==> #[trigger] self.timers@[k].due > clock,
                best.is_some() ==> ({
                    let b = best.unwrap() as int;
                    &&& b < i
                    &&& self.timers@[b].due <= clock
                    &&& forall|k: int| 0 <= k < i ==> #[trigger] self.timers@[k].due >= self.timers@[b].due
                        || self.timers@[k].due > clock
                    &&& forall|k: int| 0 <= k < b ==> #[trigger] self.timers@[k].due > self.timers@[b].due
                }),
            decreases self.timers@.len() - i,
        {
            let due = self.timers[i].due;
            if due <= clock {
                match best {
                    Some(b) => {
                        if due < self.timers[b].due {
                            best = Some(i);
                        }
                    },
                    None => {
                        best = Some(i);
                    },
                }
            }
            i = i + 1;
        }
        match best {
            Some(b) => {
                let ghost before = self.timers@;
                let entry = self.timers.remove(b);
                proof {
                    assert(is_next_due(before, b as int, clock));
                    assert forall|a: int| 0 <= a < self.timers@.len() implies 1 <= (#[trigger] self.timers@[a]).handle < self.next_handle by {
                        if a < b {
                            assert(self.timers@[a] == before[a]);
                        } else {
                            assert(self.timers@[a] == before[a + 1]);
                        }
                    }
                    assert forall|x: int, y: int|
                        0 <= x < self.timers@.len() && 0 <= y < self.timers@.len() && x != y
                            implies self.timers@[x].handle != self.timers@[y].handle by {
                        let x2 = if x < b { x } else { x + 1 };
                        let y2 = if y < b { y } else { y + 1 };
                        assert(self.timers@[x] == before[x2]);
                        assert(self.timers@[y] == before[y2]);
                    }
                }
                Some(entry.callback)
            },
            None => {
                proof {
                    if any_due(self.timers@, clock) {
                        let j = choose|j: int| 0 <= j < self.timers@.len() && #[trigger] self.timers@[j].due <= clock;
                        assert(self.timers@[j].due > clock);
                    }
                }
                None
            },
        }
    }

    /// Marks the loop running.
    pub fn run(&mut self)
        ensures
            *final(self) == (PlatformRunLoop { running: true, ..*old(self) }),
    {
        self.running = true;
    }

    /// Marks the loop stopped.
    pub fn stop(&mut self)
        ensures
            *final(self) == (PlatformRunLoop { running: false, ..*old(self) }),
    {
        self.running = false;
    }

    /// A sender for this loop's submission queue.
    pub fn new_sender(&self) -> (r: PlatformRunLoopSender) {
        PlatformRunLoopSender {}
    }
}

impl PlatformRunLoopSender {
    /// Queues `callback` to run on the loop's thread, after what was queued
    /// before it.
    pub fn send<T>(&self, run_loop: &mut PlatformRunLoop<T>, callback: T)
        ensures
            final(run_loop).submitted@ == old(run_loop).submitted@.push(callback),
            final(run_loop).timers@ == old(run_loop).timers@,
            final(run_loop).now == old(run_loop).now,
            final(run_loop).next_handle == old(run_loop).next_handle,
            final(run_loop).running == old(run_loop).running,
    {
        run_loop.submitted.push(callback);
    }
}

/// The run loop that the shell's components schedule on.
pub struct RunLoop<T> {
    pub platform_run_loop: PlatformRunLoop<T>,
}

/// The handle of a scheduled callback. Cancelling it before the callback
/// fires guarantees that the callback never runs; detaching it lets the
/// callback run with no way to cancel it.
pub struct ScheduledCallback {
    pub handle: i64,
}

/// Hands callbacks to a run loop's submission queue.
pub struct RunLoopSender {
    pub platform_sender: PlatformRunLoopSender,
}

impl<T> RunLoop<T> {
    pub open spec fn wf(&self) -> bool {
        self.platform_run_loop.wf()
    }

    pub fn new() -> (r: RunLoop<T>)
        ensures
            r.wf(),
            r.platform_run_loop.timers@.len() == 0,
            r.platform_run_loop.submitted@.len() == 0,
    {
        RunLoop { platform_run_loop: PlatformRunLoop::new() }
    }

    /// Schedules `callback` to run `in_time` ticks from now.
    pub fn schedule(&mut self, callback: T, in_time: u64) -> (r: ScheduledCallback)
        requires
            old(self).wf(),
        ensures
            final(self).wf(),
            old(self).platform_run_loop.next_handle < i64::MAX ==> r.handle == old(self).platform_run_loop.next_handle && final(self).platform_run_loop.timers@ == old(self).platform_run_loop.timers@.push(
                TimerEntry {
                    handle: r.handle,
                    due: saturating_add(old(self).platform_run_loop.now, in_time),
                    callback,
                },
            ),
            old(self).platform_run_loop.next_handle == i64::MAX ==> r.handle == INVALID_HANDLE
                && final(self).platform_run_loop.timers@ == old(self).platform_run_loop.timers@,
            final(self).platform_run_loop.submitted@ == old(self).platform_run_loop.submitted@,
            final(self).platform_run_loop.next_handle == (if old(self).platform_run_loop.next_handle
                < i64::MAX {
                old(self).platform_run_loop.next_handle + 1
            } else {
                old(self).platform_run_loop.next_handle as int
            }),
    {
        let handle = self.platform_run_loop.schedule(callback, in_time);
        ScheduledCallback { handle }
    }

    /// Marks the loop running.
    pub fn run(&mut self)
        ensures
            final(self).platform_run_loop == (PlatformRunLoop {
                running: true,
                ..old(self).platform_run_loop
            }),
    {
        self.platform_run_loop.run();
    }

    /// Marks the loop stopped.
    pub fn stop(&mut self)
        ensures
            final(self).platform_run_loop == (PlatformRunLoop {
                running: false,
                ..old(self).platform_run_loop
            }),
    {
        self.platform_run_loop.stop();
    }

    /// A sender for this loop's submission queue.
    pub fn new_sender(&self) -> (r: RunLoopSender) {
        RunLoopSender { platform_sender: self.platform_run_loop.new_sender() }
    }
}

impl RunLoopSender {
    /// Queues `callback` to run on the loop's thread.
    pub fn send<T>(&self, run_loop: &mut RunLoop<T>, callback: T)
        ensures
            final(run_loop).platform_run_loop.submitted@ == old(run_loop).platform_run_loop.submitted@.push(callback),
            final(run_loop).platform_run_loop.timers@ == old(run_loop).platform_run_loop.timers@,
    {
        self.platform_sender.send(&mut run_loop.platform_run_loop, callback);
    }
}

impl ScheduledCallback {
    /// Cancels the callback if it has not fired; afterwards the handle is
    /// invalid and a second cancel does nothing.
    pub fn cancel<T>(&mut self, run_loop: &mut RunLoop<T>)
        requires
            old(run_loop).wf(),
        ensures
            final(run_loop).wf(),
            final(self).handle == INVALID_HANDLE,
            old(self).handle != INVALID_HANDLE ==> !final(run_loop).platform_run_loop.has_timer(
                old(self).handle,
            ),
            old(self).handle == INVALID_HANDLE ==> *final(run_loop) == *old(run_loop),
            final(run_loop).platform_run_loop.submitted@ == old(run_loop).platform_run_loop.submitted@,
            final(run_loop).platform_run_loop.next_handle == old(run_loop).platform_run_loop.next_handle,
    {
        if self.handle != INVALID_HANDLE {
            run_loop.platform_run_loop.unschedule(self.handle);
            self.handle = INVALID_HANDLE;
        }
    }

    /// Gives up the right to cancel: the callback will run when due.
    pub fn detach(&mut self)
        ensures
            final(self).handle == INVALID_HANDLE,
    {
        self.handle = INVALID_HANDLE;
    }
}

} // verus!
