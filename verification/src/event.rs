use vstd::prelude::*;

use crate::b64::b64_of;

verus! {

/// Exact length, in bytes, of one rendered frame.
pub const FRAME_LEN: usize = 456;

/// The wire-level unit pushed to the client.
pub enum StreamEvent {
    /// One rendered frame, carried as the standard-alphabet base64 encoding
    /// of its 456 bytes.
    ScreenUpdate(String),
    /// The single terminal event that closes a completed stream. It carries
    /// no payload.
    End,
}

/// A well-formed data payload: the base64 encoding of exactly one frame.
pub open spec fn is_frame_payload(p: Seq<char>) -> bool {
    exists|bytes: Seq<u8>| bytes.len() == FRAME_LEN && p == #[trigger] b64_of(bytes)
}

/// Every data event carries a well-formed frame payload; the terminal event
/// carries nothing.
pub open spec fn event_wf(e: StreamEvent) -> bool {
    match e {
        StreamEvent::ScreenUpdate(p) => is_frame_payload(p@),
        StreamEvent::End => true,
    }
}

impl StreamEvent {
    /// The event name used on the wire.
    pub fn kind_name(&self) -> (r: &'static str)
        ensures
            *self is ScreenUpdate ==> r@ == "screen_update"@,
            *self is End ==> r@ == "end"@,
    {
        match self {
            StreamEvent::ScreenUpdate(_) => "screen_update",
            StreamEvent::End => "end",
        }
    }

    /// The payload sent with the event: the encoded frame for a data event,
    /// nothing for the terminal event.
    pub fn payload(&self) -> (r: Option<&String>)
        ensures
            match *self {
                StreamEvent::ScreenUpdate(p) => r matches Some(q) && *q == p,
                StreamEvent::End => r is None,
            },
    {
        match self {
            StreamEvent::ScreenUpdate(p) => Some(p),
            StreamEvent::End => None,
        }
    }
}

/// Decodes a data event's payload back into frame bytes. Any payload that is
/// the encoding of some byte sequence yields exactly those bytes; so every
/// well-formed data payload decodes to exactly one 456-byte frame.
pub fn decode_frame_payload(payload: &str) -> (r: Option<Vec<u8>>)
    ensures
        forall|bytes: Seq<u8>| payload@ == #[trigger] b64_of(bytes)
            ==> (r matches Some(v) && v@ == bytes),
        is_frame_payload(payload@) ==> (r matches Some(v) && v@.len() == FRAME_LEN),
{
    let r = crate::b64::b64_decode(payload);
    proof {
        if is_frame_payload(payload@) {
            let bytes = choose|bytes: Seq<u8>|
                bytes.len() == FRAME_LEN && payload@ == #[trigger] b64_of(bytes);
            assert(payload@ == b64_of(bytes));
        }
    }
    r
}

} // verus!
