//! The progress poller's work for one tick: drain every message currently
//! buffered in the channel without blocking, keep only the newest, and
//! decode, validate and evaluate that one. Faults are reported as
//! diagnostics and never stop the poll loop.

use vstd::prelude::*;
use vstd::string::StringExecFns;
use crate::channel::channel_try_recv;
use crate::protocol::{spec_evaluate, evaluate_message, PollError, ProgressUpdate};

verus! {

/// What one poller tick reports to the caller.
#[derive(Debug, Clone)]
pub enum PollReport {
    /// Nothing was buffered this tick; the displayed percentage keeps its value.
    NoMessage,
    /// The newest buffered message was valid; the percentage it stands for.
    Updated(ProgressUpdate),
    /// The newest buffered message was faulty; the fault and the raw message.
    Diagnostic(PollError, String),
}

/// Drains every message currently buffered in the channel, oldest first,
/// without blocking. What comes back depends on what the producer had sent
/// by now; everything decided from it is decided by `report_from_messages`.
pub fn drain_messages(rx: &mut futures::channel::mpsc::UnboundedReceiver<String>) -> Vec<String> {
    let mut out: Vec<String> = Vec::new();
    // More iterations than messages could ever sit in memory at once, so the
    // drain always empties the buffer in one tick.
    let mut budget: usize = usize::MAX;
    while budget > 0
        decreases budget,
    {
        budget = budget - 1;
        match channel_try_recv(rx) {
            Some(m) => out.push(m),
            None => {
                return out;
            },
        }
    }
    out
}

/// The drain-to-latest policy over one tick's buffered messages: only the
/// newest is evaluated, every older one is silently discarded, and no
/// message at all leaves the report unchanged.
pub fn report_from_messages(msgs: &Vec<String>) -> (r: PollReport)
    ensures
        (r is NoMessage) <==> msgs@.len() == 0,
        msgs@.len() > 0 ==> match spec_evaluate(msgs@.last()@) {
            Ok(u) => r == PollReport::Updated(u),
            Err(e) => r matches PollReport::Diagnostic(pe, raw) && pe == e && raw@
                == msgs@.last()@,
        },
{
    if msgs.len() == 0 {
        return PollReport::NoMessage;
    }
    let last = &msgs[msgs.len() - 1];
    match evaluate_message(last.as_str()) {
        Ok(u) => PollReport::Updated(u),
        Err(e) => PollReport::Diagnostic(e, last.clone()),
    }
}

/// One full poller tick: drain the channel and evaluate the newest message.
/// What was buffered depends on the producer's timing, but whatever came
/// back: an update is a validated report with a positive total, and a
/// diagnostic carries the raw message whose evaluation is exactly its fault.
pub fn poll_tick(rx: &mut futures::channel::mpsc::UnboundedReceiver<String>) -> (r: PollReport)
    ensures
        r matches PollReport::Updated(u) ==> u.wf(),
        r matches PollReport::Diagnostic(e, raw) ==> spec_evaluate(raw@) == Err::<
            ProgressUpdate,
            PollError,
        >(e),
{
    let msgs = drain_messages(rx);
    report_from_messages(&msgs)
}

/// The diagnostic line for a faulty message.
pub open spec fn spec_diagnostic_text(e: PollError, raw: Seq<char>) -> Seq<char> {
    match e {
        PollError::MalformedMessage => "message not progress: "@ + raw,
        PollError::NonNumericField => "progress numeric not numeric: "@ + raw,
        PollError::ZeroTotal => "progress total is zero: "@ + raw,
    }
}

/// Renders the diagnostic a fault is reported with.
pub fn diagnostic_text(e: &PollError, raw: &str) -> (r: String)
    ensures
        r@ == spec_diagnostic_text(*e, raw@),
{
    let mut s = match e {
        PollError::MalformedMessage => String::from_str("message not progress: "),
        PollError::NonNumericField => String::from_str("progress numeric not numeric: "),
        PollError::ZeroTotal => String::from_str("progress total is zero: "),
    };
    s.append(raw);
    s
}

} // verus!
