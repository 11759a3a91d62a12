//! Payloads of the event bridge: the single native callback's (message,
//! details) pairs and the helper-process output lines, as forwarded to the
//! registered sink. The bridge tolerates absent strings — the native side
//! may pass null — and strips terminal escapes from helper output.

use vstd::prelude::*;

use crate::text::strip_ansi;
use crate::text::strip_ansi_escapes;

verus! {

/// One forwarded native notification: the message name acts as a tag the
/// sink interprets; the details are raw JSON text, not reparsed here.
#[derive(Debug, Clone)]
pub struct MaaCallbackEvent {
    pub message: String,
    pub details: String,
}

/// One forwarded line of helper-process output, tagged with the instance
/// and the stream it came from.
#[derive(Debug, Clone)]
pub struct AgentOutputEvent {
    pub instance_id: String,
    pub stream: String,
    pub line: String,
}

/// Builds the event for one native notification: an absent message or
/// details string — a null pointer on the native side — reads as empty,
/// never as an error.
pub fn make_callback_event(message: Option<String>, details: Option<String>) -> (e:
    MaaCallbackEvent)
    ensures
        e.message@ == (match message {
            Some(m) => m@,
            None => Seq::<char>::empty(),
        }),
        e.details@ == (match details {
            Some(d) => d@,
            None => Seq::<char>::empty(),
        }),
{
    MaaCallbackEvent {
        message: match message {
            Some(m) => m,
            None => String::new(),
        },
        details: match details {
            Some(d) => d,
            None => String::new(),
        },
    }
}

/// Builds the event for one line of helper-process output, with ANSI
/// terminal escape sequences stripped before forwarding.
pub fn make_agent_output_event(instance_id: &str, stream: &str, line: &str) -> (e: AgentOutputEvent)
    ensures
        e.instance_id@ == instance_id@,
        e.stream@ == stream@,
        e.line@ == strip_ansi(line@),
{
    AgentOutputEvent {
        instance_id: instance_id.to_owned(),
        stream: stream.to_owned(),
        line: strip_ansi_escapes(line),
    }
}

} // verus!
