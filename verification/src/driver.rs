use vstd::prelude::*;

use crate::b64;
use crate::errors::RunError;
use crate::event::{event_wf, is_frame_payload, StreamEvent, FRAME_LEN};
use crate::guest;
use crate::guest::TimeSource;
use crate::machine::{RunnerState, MAX_FRAME_INDEX};

verus! {

/// Whether a guest's completion flag signals that the run is done: any
/// nonzero answer from `is_done` counts as done.
pub fn done_signalled(done: i32) -> (r: bool)
    ensures
        r == (done != 0),
{
    done != 0
}

/// Whether a frame pointer handed back by the guest is valid: its whole
/// 456-byte window must lie within a guest memory of `size` bytes.
pub fn window_ok(ptr: i32, size: u64) -> (r: bool)
    ensures
        r <==> (0 <= ptr && ptr + FRAME_LEN <= size),
{
    if ptr < 0 {
        false
    } else {
        let offset: u64 = ptr as u64;
        size >= FRAME_LEN as u64 && offset <= size - FRAME_LEN as u64
    }
}

/// Drives one loaded guest instance through the bounded frame sequence.
///
/// A driver owns its execution context exclusively for the lifetime of one
/// request; it is never shared and never restarted. Frames are pulled one at
/// a time with [`FrameDriver::next`].
pub struct FrameDriver {
    store: wasmer::Store,
    memory: wasmer::Memory,
    is_done_fn: wasmer::TypedFunction<i32, i32>,
    next_frame_fn: wasmer::TypedFunction<i32, i32>,
    instance: Ghost<wasmer::Instance>,
    state: RunnerState,
}

impl FrameDriver {
    /// Where the run stands.
    pub closed spec fn spec_state(self) -> RunnerState {
        self.state
    }

    /// The driver's handles all belong to its own store, and each is the
    /// ABI export it is named for: the instance's `memory` export and its
    /// `is_done` and `next_frame` functions.
    pub closed spec fn abi_bound(self) -> bool {
        &&& guest::in_store_memory(self.memory, self.store)
        &&& guest::in_store_fn(self.is_done_fn, self.store)
        &&& guest::in_store_fn(self.next_frame_fn, self.store)
        &&& guest::is_export_memory(self.memory, self.instance@)
        &&& guest::is_export_fn(self.is_done_fn, self.instance@, "is_done"@)
        &&& guest::is_export_fn(self.next_frame_fn, self.instance@, "next_frame"@)
    }

    /// Well-formed: the handles are the right exports of the driver's own
    /// store, and the frame index never runs more than one past the cap.
    pub open spec fn wf(self) -> bool {
        &&& self.abi_bound()
        &&& (self.spec_state() matches RunnerState::Running(i) ==> i <= 101)
    }

    /// How many more items this driver can still produce, at most.
    pub open spec fn remaining(self) -> int {
        match self.spec_state() {
            RunnerState::Running(i) => 102 - i,
            RunnerState::Ended => 0,
        }
    }

    /// Where the run stands, for callers outside the proof.
    pub fn state(&self) -> (s: RunnerState)
        ensures
            s == self.spec_state(),
    {
        self.state
    }

    /// Compiles and links a guest module, ready to render frame 0.
    ///
    /// The source string goes to the runtime as given: it accepts the
    /// textual module form and, for strings that carry the wasm magic
    /// bytes, the binary form. `CompileError` comes exactly when the
    /// compiler rejects the source. `LinkError` reports a required import
    /// the host does not supply, a start-section fault, or a missing
    /// required export: the linear memory, `is_done` or `next_frame`. No
    /// event is produced during loading, so a module that cannot run at all
    /// yields an error before any stream begins. The given time source
    /// stands behind the guest's `env.unixtime` import for the whole run.
    pub fn load(source: &str, time: TimeSource) -> (r: Result<FrameDriver, RunError>)
        ensures
            r matches Ok(d) ==> d.wf() && d.spec_state() == RunnerState::Running(0u16),
            r matches Err(e) ==> e == RunError::CompileError || e == RunError::LinkError,
            r == Err::<FrameDriver, RunError>(RunError::CompileError) <==> !guest::compiles(
                source@,
            ),
    {
        let mut store = guest::store_new();
        let module = match guest::module_compile(&store, source) {
            Ok(m) => m,
            Err(e) => {
                return Err(e);
            },
        };
        let linked = match time {
            TimeSource::System => guest::instance_link_system(&mut store, &module),
            TimeSource::Fixed(seconds) => guest::instance_link_fixed(&mut store, &module, seconds),
        };
        let instance = match linked {
            Ok(inst) => inst,
            Err(e) => {
                return Err(e);
            },
        };
        let memory = match guest::export_memory(&instance) {
            Ok(m) => m,
            Err(e) => {
                return Err(e);
            },
        };
        let is_done_fn = match guest::export_i32_fn(&instance, &store, "is_done") {
            Ok(f) => f,
            Err(e) => {
                return Err(e);
            },
        };
        let next_frame_fn = match guest::export_i32_fn(&instance, &store, "next_frame") {
            Ok(f) => f,
            Err(e) => {
                return Err(e);
            },
        };
        Ok(
            FrameDriver {
                store,
                memory,
                is_done_fn,
                next_frame_fn,
                instance: Ghost(instance),
                state: RunnerState::Running(0),
            },
        )
    }

    /// Pulls the next event of the run.
    ///
    /// Fused: once the run has ended — terminal event delivered or guest
    /// fault reported — every further pull returns `None`, so the stream
    /// holds at most one terminal event and nothing follows it. While
    /// running at index `i`: past the cap, or when the guest reports
    /// completion, the terminal event goes out and the run ends; a fault in
    /// either guest call, or a frame pointer whose 456-byte window does not
    /// lie within the guest's current memory, ends the run with `GuestTrap`;
    /// otherwise the 456 bytes at the returned pointer go out as one data
    /// event and the index advances by one.
    pub fn next(&mut self) -> (r: Option<Result<StreamEvent, RunError>>)
        requires
            old(self).wf(),
        ensures
            final(self).wf(),
            old(self).spec_state() is Ended ==> r is None && final(self).spec_state() == old(
                self,
            ).spec_state(),
            old(self).spec_state() is Running ==> r is Some,
            old(self).spec_state() matches RunnerState::Running(i) ==> match r {
                Some(item) => match item {
                    Ok(ev) => match ev {
                        StreamEvent::End => final(self).spec_state() is Ended,
                        StreamEvent::ScreenUpdate(p) => i <= 100 && final(self).spec_state()
                            == RunnerState::Running((i + 1) as u16) && is_frame_payload(p@),
                    },
                    Err(e) => e == RunError::GuestTrap && final(self).spec_state() is Ended && i
                        <= 100,
                },
                None => false,
            },
            old(self).spec_state() matches RunnerState::Running(i) ==> (i > 100 ==> r == Some(
                Result::<StreamEvent, RunError>::Ok(StreamEvent::End),
            )),
    {
        let i: u16 = match self.state {
            RunnerState::Ended => {
                return None;
            },
            RunnerState::Running(i) => i,
        };
        if i > MAX_FRAME_INDEX {
            self.state = RunnerState::Ended;
            return Some(Ok(StreamEvent::End));
        }
        match guest::call_i32_fn(&self.is_done_fn, &mut self.store, i as i32) {
            Err(e) => {
                self.state = RunnerState::Ended;
                return Some(Err(e));
            },
            Ok(done) => {
                if done_signalled(done) {
                    self.state = RunnerState::Ended;
                    return Some(Ok(StreamEvent::End));
                }
            },
        }
        let ptr = match guest::call_i32_fn(&self.next_frame_fn, &mut self.store, i as i32) {
            Err(e) => {
                self.state = RunnerState::Ended;
                return Some(Err(e));
            },
            Ok(p) => p,
        };
        let size: u64 = guest::memory_data_size(&self.memory, &self.store);
        if !window_ok(ptr, size) {
            self.state = RunnerState::Ended;
            return Some(Err(RunError::GuestTrap));
        }
        let offset: u64 = ptr as u64;
        let bytes = match guest::memory_read(&self.memory, &self.store, offset, FRAME_LEN) {
            Err(e) => {
                self.state = RunnerState::Ended;
                return Some(Err(e));
            },
            Ok(b) => b,
        };
        let payload = b64::b64_encode(&bytes);
        self.state = RunnerState::Running(i + 1);
        Some(Ok(StreamEvent::ScreenUpdate(payload)))
    }

    /// Runs the driver to completion without pacing and collects every event.
    ///
    /// A completed run comes back as data events closed by the single
    /// terminal event, and a faulted run as the data events delivered before
    /// the fault, with the fault alongside; either way at most 102 items
    /// come out and the driver is left ended.
    pub fn collect_events(&mut self) -> (r: (Vec<StreamEvent>, Option<RunError>))
        requires
            old(self).wf(),
        ensures
            final(self).wf(),
            final(self).spec_state() is Ended,
            forall|j: int| 0 <= j < r.0@.len() ==> event_wf(#[trigger] r.0@[j]),
            old(self).spec_state() matches RunnerState::Running(i0) ==> r.0@.len() <= 102 - i0,
            old(self).spec_state() is Ended ==> r.0@.len() == 0 && r.1 is None,
            r.1 is None && old(self).spec_state() is Running ==> r.0@.len() >= 1
                && r.0@.last() is End && (forall|j: int|
                0 <= j < r.0@.len() - 1 ==> #[trigger] r.0@[j] is ScreenUpdate),
            r.1 matches Some(e) ==> e == RunError::GuestTrap && (forall|j: int|
                0 <= j < r.0@.len() ==> #[trigger] r.0@[j] is ScreenUpdate),
            old(self).spec_state() matches RunnerState::Running(i0) ==> (r.1 is Some ==> r.0@.len()
                <= 100 - i0),
    {
        let ghost st0 = self.spec_state();
        let mut events: Vec<StreamEvent> = Vec::new();
        match self.state {
            RunnerState::Ended => {
                return (events, None);
            },
            RunnerState::Running(_) => {},
        }
        loop
            invariant
                self.wf(),
                self.spec_state() is Running,
                st0 == old(self).spec_state(),
                st0 matches RunnerState::Running(i0) ==> (self.spec_state()
                    matches RunnerState::Running(i) ==> i0 <= i && events@.len() == i - i0),
                st0 is Running,
                forall|j: int|
                    0 <= j < events@.len() ==> (#[trigger] events@[j]) is ScreenUpdate && event_wf(
                        events@[j],
                    ),
            decreases self.remaining(),
        {
            match self.next() {
                None => {
                    return (events, None);
                },
                Some(Ok(ev)) => match ev {
                    StreamEvent::End => {
                        events.push(StreamEvent::End);
                        return (events, None);
                    },
                    StreamEvent::ScreenUpdate(p) => {
                        events.push(StreamEvent::ScreenUpdate(p));
                    },
                },
                Some(Err(e)) => {
                    return (events, Some(e));
                },
            }
        }
    }
}

} // verus!

