//! Engine lifecycles: created, launched, running, shut down.
use vstd::prelude::*;
use crate::error::PlatformError;
use crate::handle::EngineHandle;

verus! {

#[derive(Clone, Copy, Debug, PartialEq, Eq, Structural)]
pub enum EngineState {
    Created,
    Launched,
    Running,
    ShutDown,
}

#[derive(Clone, Copy, Debug, PartialEq, Eq, Structural)]
pub struct EngineEntry {
    pub handle: EngineHandle,
    pub state: EngineState,
}

/// Owns the engines of the live windows.
pub struct EngineManager {
    pub engines: Vec<EngineEntry>,
}

/// The position of engine `h` in `es`, or -1.
pub open spec fn engine_entry_index(es: Seq<EngineEntry>, h: EngineHandle) -> int {
    if exists|i: int| 0 <= i < es.len() && es[i].handle == h {
        choose|i: int| 0 <= i < es.len() && es[i].handle == h
    } else {
        -1
    }
}

impl EngineManager {
    pub open spec fn wf(&self) -> bool {
        forall|i: int, j: int|
            0 <= i < self.engines@.len() && 0 <= j < self.engines@.len() && i != j
                ==> self.engines@[i].handle != self.engines@[j].handle
    }

    pub open spec fn contains(&self, h: EngineHandle) -> bool {
        exists|i: int| 0 <= i < self.engines@.len() && self.engines@[i].handle == h
    }

    pub fn new() -> (r: EngineManager)
        ensures
            r.wf(),
            r.engines@.len() == 0,
    {
        EngineManager { engines: Vec::new() }
    }

    fn find(&self, h: EngineHandle) -> (r: Option<usize>)
        requires
            self.wf(),
        ensures
            r.is_some() == self.contains(h),
            r.is_some() ==> r.unwrap() < self.engines@.len() && r.unwrap() == engine_entry_index(
                self.engines@,
                h,
            ),
    {
        let mut i: usize = 0;
        while i < self.engines.len()
            invariant
                self.wf(),
                i <= self.engines@.len(),
                forall|k: int| 0 <= k < i ==> self.engines@[k].handle != h,
            decreases self.engines@.len() - i,
        {
            if self.engines[i].handle.0 == h.0 {
                proof {
                    let c = engine_entry_index(self.engines@, h);
                    assert(self.engines@[c].handle == h);
                }
                return Some(i);
            }
            i = i + 1;
        }
        None
    }

    /// Registers engine `h` as created; a handle already registered is
    /// refused.
    pub fn create_engine(&mut self, h: EngineHandle) -> (r: Result<(), PlatformError>)
        requires
            old(self).wf(),
        ensures
            final(self).wf(),
            old(self).contains(h) ==> r == Err::<(), PlatformError>(PlatformError::InvalidArgument)
                && final(self).engines@ == old(self).engines@,
            !old(self).contains(h) ==> r.is_ok() && final(self).engines@ == old(self).engines@.push(
                EngineEntry { handle: h, state: EngineState::Created },
            ),
    {
        if self.find(h).is_some() {
            return Err(PlatformError::InvalidArgument);
        }
        self.engines.push(EngineEntry { handle: h, state: EngineState::Created });
        Ok(())
    }

    /// Moves engine `h` one step along its lifecycle, from `from` to `to`;
    /// any other state fails with `failure`.
    fn advance(&mut self, h: EngineHandle, from: EngineState, to: EngineState, failure: PlatformError) -> (r: Result<(), PlatformError>)
        requires
            old(self).wf(),
        ensures
            final(self).wf(),
            !old(self).contains(h) ==> r == Err::<(), PlatformError>(PlatformError::UnknownError)
                && final(self).engines@ == old(self).engines@,
            old(self).contains(h) ==> ({
                let i = engine_entry_index(old(self).engines@, h);
                if old(self).engines@[i].state == from {
                    r.is_ok() && final(self).engines@ == old(self).engines@.update(
                        i,
                        EngineEntry { handle: h, state: to },
                    )
                } else {
                    r == Err::<(), PlatformError>(failure) && final(self).engines@ == old(self).engines@
                }
            }),
    {
        match self.find(h) {
            Some(i) => {
                if self.engines[i].state == from {
                    self.engines.set(i, EngineEntry { handle: h, state: to });
                    Ok(())
                } else {
                    Err(failure)
                }
            },
            None => Err(PlatformError::UnknownError),
        }
    }

    /// Launches a created engine; an engine in any other state fails with
    /// `LaunchEngineFailure`.
    pub fn launch_engine(&mut self, h: EngineHandle) -> (r: Result<(), PlatformError>)
        requires
            old(self).wf(),
        ensures
            final(self).wf(),
            !old(self).contains(h) ==> r == Err::<(), PlatformError>(PlatformError::UnknownError)
                && final(self).engines@ == old(self).engines@,
            old(self).contains(h) ==> ({
                let i = engine_entry_index(old(self).engines@, h);
                if old(self).engines@[i].state == EngineState::Created {
                    r.is_ok() && final(self).engines@ == old(self).engines@.update(
                        i,
                        EngineEntry { handle: h, state: EngineState::Launched },
                    )
                } else {
                    r == Err::<(), PlatformError>(PlatformError::LaunchEngineFailure)
                        && final(self).engines@ == old(self).engines@
                }
            }),
    {
        self.advance(h, EngineState::Created, EngineState::Launched, PlatformError::LaunchEngineFailure)
    }

    /// A launched engine reports that it runs.
    pub fn engine_running(&mut self, h: EngineHandle) -> (r: Result<(), PlatformError>)
        requires
            old(self).wf(),
        ensures
            final(self).wf(),
            !old(self).contains(h) ==> r == Err::<(), PlatformError>(PlatformError::UnknownError)
                && final(self).engines@ == old(self).engines@,
            old(self).contains(h) ==> ({
                let i = engine_entry_index(old(self).engines@, h);
                if old(self).engines@[i].state == EngineState::Launched {
                    r.is_ok() && final(self).engines@ == old(self).engines@.update(
                        i,
                        EngineEntry { handle: h, state: EngineState::Running },
                    )
                } else {
                    r == Err::<(), PlatformError>(PlatformError::UnknownError)
                        && final(self).engines@ == old(self).engines@
                }
            }),
    {
        self.advance(h, EngineState::Launched, EngineState::Running, PlatformError::UnknownError)
    }

    /// Shuts engine `h` down and forgets it. Returns whether it was the last
    /// engine, in which case the run loop is to stop.
    pub fn remove_engine(&mut self, h: EngineHandle) -> (r: Result<bool, PlatformError>)
        requires
            old(self).wf(),
        ensures
            final(self).wf(),
            !old(self).contains(h) ==> r == Err::<bool, PlatformError>(PlatformError::UnknownError)
                && final(self).engines@ == old(self).engines@,
            old(self).contains(h) ==> r == Ok::<bool, PlatformError>(final(self).engines@.len() == 0)
                && final(self).engines@ == old(self).engines@.remove(
                engine_entry_index(old(self).engines@, h),
            ),
            !final(self).contains(h),
    {
        match self.find(h) {
            Some(i) => {
                let ghost before = self.engines@;
                let _gone = self.engines.remove(i);
                proof {
                    assert forall|a: int| 0 <= a < self.engines@.len() implies (if a < i {
                        self.engines@[a] == before[a]
                    } else {
                        self.engines@[a] == before[a + 1]
                    }) by {}
                    if self.contains(h) {
                        let d = choose|d: int| 0 <= d < self.engines@.len() && self.engines@[d].handle == h;
                        if d < i {
                            assert(before[d].handle == h);
                        } else {
                            assert(before[d + 1].handle == h);
                        }
                    }
                }
                Ok(self.engines.len() == 0)
            },
            None => Err(PlatformError::UnknownError),
        }
    }
}

} // verus!
