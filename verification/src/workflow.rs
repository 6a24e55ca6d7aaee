//! Workflow-side helpers: durable timer options and results, decoding of
//! signal inputs and of activity outputs.
use vstd::prelude::*;

use std::time::Duration;

use crate::text::decimal;
use crate::decode::{named, named_count, named_count_message, named_message, take_single, SignalDecodeError};

verus! {

/// `Duration` is `Copy`: its `clone` (std's `<Duration as Clone>::clone`)
/// hands back the same duration.
pub assume_specification[ <Duration as Clone>::clone ](d: &Duration) -> (r: Duration)
    ensures
        r == *d,
;

/// Options used when creating a durable workflow timer.
#[derive(Default, Debug, Clone, PartialEq, Eq)]
pub struct TimerOptions {
    /// Duration to wait before the timer fires.
    pub duration: Duration,
    /// Optional single-line summary shown in Temporal UI/CLI metadata.
    pub summary: Option<String>,
}

impl From<Duration> for TimerOptions {
    /// A timer of `duration` without a summary.
    fn from(duration: Duration) -> (r: Self)
        ensures
            r.duration == duration,
            r.summary is None,
    {
        TimerOptions { duration, summary: None }
    }
}

impl vstd::std_specs::convert::FromSpecImpl<Duration> for TimerOptions {
    open spec fn obeys_from_spec() -> bool {
        true
    }

    open spec fn from_spec(v: Duration) -> Self {
        TimerOptions { duration: v, summary: None }
    }
}

/// Result of awaiting a workflow timer.
#[derive(Debug, Copy, Clone, PartialEq, Eq, Structural)]
pub enum TimerResult {
    /// The timer elapsed and fired.
    Fired,
    /// The timer was cancelled before firing.
    Cancelled,
}


/// Message for a signal that carried no input payload.
pub open spec fn signal_input_missing(signal_name: Seq<char>) -> Seq<char> {
    named("signal `"@, signal_name, "` did not include an input payload"@)
}

/// Message for a signal that carried `count` input payloads.
pub open spec fn signal_input_extra(signal_name: Seq<char>, count: nat) -> Seq<char> {
    named_count(
        "signal `"@,
        signal_name,
        "` included "@,
        count,
        " input payloads; expected exactly one"@,
    )
}

/// The outcome of decoding the input payloads of signal `signal_name`:
/// refused when there is not exactly one payload, otherwise what `decode`
/// gives for it.
pub open spec fn signal_input_decoded<P, T, E, F: Fn(P) -> Result<T, E>>(
    signal_name: Seq<char>,
    payloads: Seq<P>,
    decode: F,
    r: Result<T, SignalDecodeError<E>>,
) -> bool {
    if payloads.len() == 0 {
        r matches Err(SignalDecodeError::Rejected { message }) && message@ == signal_input_missing(
            signal_name,
        )
    } else if payloads.len() > 1 {
        r matches Err(SignalDecodeError::Rejected { message }) && message@ == signal_input_extra(
            signal_name,
            payloads.len(),
        )
    } else {
        match r {
            Ok(t) => decode.ensures((payloads[0],), Ok::<T, E>(t)),
            Err(SignalDecodeError::Payload(e)) => decode.ensures((payloads[0],), Err::<T, E>(e)),
            Err(SignalDecodeError::Rejected { .. }) => false,
        }
    }
}

/// The texts of the signal messages: "signal `<name>` did not include an
/// input payload" and "signal `<name>` included <count> input payloads;
/// expected exactly one".
pub proof fn lemma_signal_message_texts(signal_name: Seq<char>, count: nat)
    ensures
        signal_input_missing(signal_name) == "signal `"@ + signal_name
            + "` did not include an input payload"@,
        signal_input_extra(signal_name, count) == "signal `"@ + signal_name + "` included "@
            + decimal(count) + " input payloads; expected exactly one"@,
{
}

/// A signal's input decodes only when the delivery carries exactly one
/// payload, to what the deserializer gave for it; no payload and several
/// payloads are refused with their messages, and a deserializer error is
/// handed back as it is.
pub proof fn lemma_signal_single_payload_rule<P, T, E, F: Fn(P) -> Result<T, E>>(
    signal_name: Seq<char>,
    payloads: Seq<P>,
    decode: F,
    r: Result<T, SignalDecodeError<E>>,
)
    requires
        signal_input_decoded(signal_name, payloads, decode, r),
    ensures
        r is Ok ==> payloads.len() == 1,
        payloads.len() == 0 ==> (r matches Err(SignalDecodeError::Rejected { message }) && message@
            == "signal `"@ + signal_name + "` did not include an input payload"@),
        payloads.len() >= 2 ==> (r matches Err(SignalDecodeError::Rejected { message }) && message@
            == "signal `"@ + signal_name + "` included "@ + decimal(payloads.len())
            + " input payloads; expected exactly one"@),
        r matches Ok(t) ==> decode.ensures((payloads[0],), Ok::<T, E>(t)),
        r matches Err(SignalDecodeError::Payload(e)) ==> (payloads.len() == 1 && decode.ensures(
            (payloads[0],),
            Err::<T, E>(e),
        )),
{
}

/// The fixed messages: "activity completed without payload" and "no arguments".
pub proof fn lemma_fixed_workflow_messages()
    ensures
        activity_payload_missing() == "activity completed without payload"@,
        workflow_arguments_missing() == "no arguments"@,
{
}

/// Decodes the input of one delivery of signal `signal_name`, which must
/// carry exactly one payload, with `decode`.
pub fn decode_signal_input<P, T, E, F: Fn(P) -> Result<T, E>>(
    signal_name: &str,
    input: Vec<P>,
    decode: &F,
) -> (r: Result<T, SignalDecodeError<E>>)
    requires
        input.len() == 1 ==> decode.requires((input@[0],)),
    ensures
        signal_input_decoded(signal_name@, input@, *decode, r),
{
    match take_single(input) {
        Ok(payload) => match decode(payload) {
            Ok(t) => Ok(t),
            Err(e) => Err(SignalDecodeError::Payload(e)),
        },
        Err(0) => Err(
            SignalDecodeError::Rejected {
                message: named_message(
                    "signal `",
                    signal_name,
                    "` did not include an input payload",
                ),
            },
        ),
        Err(n) => Err(
            SignalDecodeError::Rejected {
                message: named_count_message(
                    "signal `",
                    signal_name,
                    "` included ",
                    n,
                    " input payloads; expected exactly one",
                ),
            },
        ),
    }
}

/// Decodes, in order, the inputs of the deliveries of signal `signal_name`
/// that a stream had ready: one result per delivery, each as
/// [`decode_signal_input`] gives it.
pub fn decode_signal_batch<P, T, E, F: Fn(P) -> Result<T, E>>(
    signal_name: &str,
    batch: Vec<Vec<P>>,
    decode: &F,
) -> (r: Vec<Result<T, SignalDecodeError<E>>>)
    requires
        forall|i: int|
            0 <= i < batch.len() ==> (#[trigger] batch@[i]).len() == 1 ==> decode.requires(
                (batch@[i]@[0],),
            ),
    ensures
        r.len() == batch.len(),
        forall|i: int|
            0 <= i < batch.len() ==> signal_input_decoded(
                signal_name@,
                (#[trigger] batch@[i])@,
                *decode,
                r@[i],
            ),
{
    let ghost all = batch@;
    let mut rest = batch;
    let mut out: Vec<Result<T, SignalDecodeError<E>>> = Vec::new();
    while rest.len() > 0
        invariant
            out.len() + rest.len() == all.len(),
            rest@ == all.subrange(out.len() as int, all.len() as int),
            forall|i: int|
                0 <= i < all.len() ==> (#[trigger] all[i]).len() == 1 ==> decode.requires(
                    (all[i]@[0],),
                ),
            forall|i: int|
                0 <= i < out.len() ==> signal_input_decoded(
                    signal_name@,
                    (#[trigger] all[i])@,
                    *decode,
                    out@[i],
                ),
        decreases rest.len(),
    {
        let ghost k = out.len() as int;
        let delivery = rest.remove(0);
        assert(delivery == all[k]);
        let decoded = decode_signal_input(signal_name, delivery, decode);
        out.push(decoded);
        assert(rest@ =~= all.subrange(out.len() as int, all.len() as int));
        assert forall|i: int|
            0 <= i < out.len() implies signal_input_decoded(
            signal_name@,
            (#[trigger] all[i])@,
            *decode,
            out@[i],
        ) by {
            if i == k {
                assert(out@[i] == decoded);
            }
        }
    }
    out
}

/// Why an activity's completion could not be turned into its output.
#[derive(Debug)]
pub enum ActivityOutputError<E> {
    /// The activity completed successfully but without a payload.
    MissingPayload { message: String },
    /// The payload did not deserialize.
    Deserialize(E),
}

/// Message for an activity that completed without a payload.
pub open spec fn activity_payload_missing() -> Seq<char> {
    "activity completed without payload"@
}

/// Turns the payload of a successful activity completion into the
/// activity's output: no payload is refused, one payload is decoded with
/// `decode`.
pub fn decode_activity_output<P, T, E, F: Fn(P) -> Result<T, E>>(payload: Option<P>, decode: F) -> (r:
    Result<T, ActivityOutputError<E>>)
    requires
        payload matches Some(p) ==> decode.requires((p,)),
    ensures
        match payload {
            None => r matches Err(ActivityOutputError::MissingPayload { message }) && message@
                == activity_payload_missing(),
            Some(p) => match r {
                Ok(t) => decode.ensures((p,), Ok::<T, E>(t)),
                Err(ActivityOutputError::Deserialize(e)) => decode.ensures((p,), Err::<T, E>(e)),
                Err(ActivityOutputError::MissingPayload { .. }) => false,
            },
        },
{
    match payload {
        None => Err(
            ActivityOutputError::MissingPayload {
                message: "activity completed without payload".to_owned(),
            },
        ),
        Some(p) => match decode(p) {
            Ok(t) => Ok(t),
            Err(e) => Err(ActivityOutputError::Deserialize(e)),
        },
    }
}


/// Why a workflow's input could not be read from its arguments.
#[derive(Debug)]
pub enum WorkflowInputError<E> {
    /// The workflow was started without arguments.
    NoArguments { message: String },
    /// The first argument did not deserialize.
    InvalidPayload(E),
}

/// Message for a workflow started without arguments.
pub open spec fn workflow_arguments_missing() -> Seq<char> {
    "no arguments"@
}

/// Reads a workflow's input from its arguments: the first argument, decoded
/// with `decode`; any further arguments are ignored.
pub fn decode_workflow_input<P, T, E, F: Fn(P) -> Result<T, E>>(args: Vec<P>, decode: F) -> (r:
    Result<T, WorkflowInputError<E>>)
    requires
        args.len() > 0 ==> decode.requires((args@[0],)),
    ensures
        args.len() == 0 ==> (r matches Err(WorkflowInputError::NoArguments { message })
            && message@ == workflow_arguments_missing()),
        args.len() > 0 ==> match r {
            Ok(t) => decode.ensures((args@[0],), Ok::<T, E>(t)),
            Err(WorkflowInputError::InvalidPayload(e)) => decode.ensures(
                (args@[0],),
                Err::<T, E>(e),
            ),
            Err(WorkflowInputError::NoArguments { .. }) => false,
        },
{
    let mut args = args;
    if args.len() == 0 {
        return Err(WorkflowInputError::NoArguments { message: "no arguments".to_owned() });
    }
    let first = args.remove(0);
    match decode(first) {
        Ok(t) => Ok(t),
        Err(e) => Err(WorkflowInputError::InvalidPayload(e)),
    }
}

} // verus!
