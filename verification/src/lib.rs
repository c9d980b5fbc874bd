//! A verified core for a host that runs untrusted WebAssembly "guest"
//! animations and streams the rendered frames to a client.
//!
//! The library covers the frame-driving engine: loading a guest module,
//! stepping it frame by frame under a hard cap, validating every guest
//! pointer before reading frame bytes, pacing emissions, and framing the
//! resulting bounded sequence as transport events.

mod b64;
mod driver;
mod errors;
mod event;
mod guest;
mod machine;
mod pacer;

pub use b64::b64_of;
pub use driver::{done_signalled, window_ok, FrameDriver};
pub use errors::RunError;
pub use event::{decode_frame_payload, event_wf, is_frame_payload, StreamEvent, FRAME_LEN};
pub use guest::{compiles, exports_i32_fn, exports_memory, imports_supplied, TimeSource};
pub use machine::{
    lemma_completion_at_k, lemma_never_done, lemma_run_form, model_run, EventKind, RunnerState,
    MAX_FRAME_INDEX,
};
pub use pacer::{lemma_paced_spacing, spec_delay, Pacer, FRAME_PERIOD_MS};
