//! Decoding of the payloads that Temporal hands back: workflow outputs,
//! update outputs and signal inputs.
//!
//! Every one of them is expected to carry exactly one payload. An empty or a
//! multi-payload list is refused with a message that names the workflow,
//! update or signal; a single payload goes to the deserializer that the caller
//! supplies (JSON into the caller's type), and what it returns is handed back.
use vstd::prelude::*;

use crate::text::{decimal, usize_to_decimal};

verus! {

/// Why a payload list could not be decoded.
#[derive(Debug)]
pub enum DecodeError<E> {
    /// The response has the wrong shape (no payload, several payloads, a
    /// missing field); `message` says what was found.
    Rejected { message: String },
    /// The single payload did not deserialize; `context` says what was being
    /// decoded and `source` is the deserializer's error.
    Deserialize { context: String, source: E },
}

/// Why a signal's input could not be decoded.
#[derive(Debug)]
pub enum SignalDecodeError<E> {
    /// The signal did not carry exactly one payload; `message` says what it carried.
    Rejected { message: String },
    /// The single payload did not deserialize.
    Payload(E),
}

/// `prefix`, then the name, then `suffix`.
pub open spec fn named(prefix: Seq<char>, name: Seq<char>, suffix: Seq<char>) -> Seq<char> {
    prefix + name + suffix
}

/// `prefix`, the name, `middle`, the count in decimal, then `suffix`.
pub open spec fn named_count(
    prefix: Seq<char>,
    name: Seq<char>,
    middle: Seq<char>,
    count: nat,
    suffix: Seq<char>,
) -> Seq<char> {
    prefix + name + middle + decimal(count) + suffix
}

/// `named` and `named_count` join their parts in order, the count written in
/// decimal.
pub proof fn lemma_named_joins_parts(
    prefix: Seq<char>,
    name: Seq<char>,
    middle: Seq<char>,
    count: nat,
    suffix: Seq<char>,
)
    ensures
        named(prefix, name, suffix) == prefix + name + suffix,
        named_count(prefix, name, middle, count, suffix) == prefix + name + middle + decimal(count)
            + suffix,
{
}

/// Builds `prefix + name + suffix`.
pub fn named_message(prefix: &str, name: &str, suffix: &str) -> (r: String)
    ensures
        r@ == named(prefix@, name@, suffix@),
{
    let mut r = prefix.to_owned();
    r.append(name);
    r.append(suffix);
    r
}

/// Builds `prefix + name + middle + count + suffix`, the count in decimal.
pub fn named_count_message(prefix: &str, name: &str, middle: &str, count: usize, suffix: &str) -> (r:
    String)
    ensures
        r@ == named_count(prefix@, name@, middle@, count as nat, suffix@),
{
    let mut r = prefix.to_owned();
    r.append(name);
    r.append(middle);
    let digits = usize_to_decimal(count);
    r.append(digits.as_str());
    r.append(suffix);
    r
}

/// Takes the only item of `items`, or reports how many there are.
pub fn take_single<P>(items: Vec<P>) -> (r: Result<P, usize>)
    ensures
        items.len() == 1 ==> r == Ok::<P, usize>(items@[0]),
        items.len() != 1 ==> r == Err::<P, usize>(items.len()),
{
    let mut items = items;
    if items.len() == 1 {
        match items.pop() {
            Some(p) => Ok(p),
            None => Err(0),
        }
    } else {
        Err(items.len())
    }
}

/// The outcome of decoding a list that must hold exactly one payload:
/// `missing` when it is empty, `extra` (built from the count) when it holds
/// more, and otherwise what `decode` gives for the single payload, its error
/// under `context`.
pub open spec fn single_payload_decoded<P, T, E, F: Fn(P) -> Result<T, E>>(
    payloads: Seq<P>,
    decode: F,
    missing: Seq<char>,
    extra: Seq<char>,
    context: Seq<char>,
    r: Result<T, DecodeError<E>>,
) -> bool {
    if payloads.len() == 0 {
        r matches Err(DecodeError::Rejected { message }) && message@ == missing
    } else if payloads.len() > 1 {
        r matches Err(DecodeError::Rejected { message }) && message@ == extra
    } else {
        match r {
            Ok(t) => decode.ensures((payloads[0],), Ok::<T, E>(t)),
            Err(DecodeError::Deserialize { context: c, source }) => c@ == context
                && decode.ensures((payloads[0],), Err::<T, E>(source)),
            Err(DecodeError::Rejected { .. }) => false,
        }
    }
}

/// The message for a `kind` (a workflow, a workflow update) named `name`
/// that completed without an output payload.
pub open spec fn output_missing(kind: Seq<char>, name: Seq<char>) -> Seq<char> {
    named(kind + " `"@, name, "` completed without an output payload"@)
}

/// The message for a `kind` named `name` that completed with `count` output
/// payloads.
pub open spec fn output_extra(kind: Seq<char>, name: Seq<char>, count: nat) -> Seq<char> {
    named_count(
        kind + " `"@,
        name,
        "` completed with "@,
        count,
        " output payloads; expected exactly one"@,
    )
}

/// The context of an output of a `kind` named `name` that does not deserialize.
pub open spec fn output_context(kind: Seq<char>, name: Seq<char>) -> Seq<char> {
    named("failed to deserialize output for "@ + kind + " `"@, name, "`"@)
}

/// The texts of the decoding messages: for a `kind` (`workflow`, `workflow
/// update`) named `name`, "<kind> `<name>` completed without an output
/// payload", "<kind> `<name>` completed with <count> output payloads;
/// expected exactly one", and "failed to deserialize output for <kind>
/// `<name>`".
pub proof fn lemma_output_message_texts(kind: Seq<char>, name: Seq<char>, count: nat)
    ensures
        output_missing(kind, name) == kind + " `"@ + name + "` completed without an output payload"@,
        output_extra(kind, name, count) == kind + " `"@ + name + "` completed with "@ + decimal(count)
            + " output payloads; expected exactly one"@,
        output_context(kind, name) == "failed to deserialize output for "@ + kind + " `"@ + name
            + "`"@,
{
}

/// The single-payload rule: an empty list is refused with the `missing`
/// message, a list of two or more with the `extra` message, and only a
/// one-payload list can succeed, with what the deserializer gave for that
/// payload; its failure is reported under `context` with the deserializer's
/// own error.
pub proof fn lemma_single_payload_rule<P, T, E, F: Fn(P) -> Result<T, E>>(
    payloads: Seq<P>,
    decode: F,
    missing: Seq<char>,
    extra: Seq<char>,
    context: Seq<char>,
    r: Result<T, DecodeError<E>>,
)
    requires
        single_payload_decoded(payloads, decode, missing, extra, context, r),
    ensures
        r is Ok ==> payloads.len() == 1,
        payloads.len() == 0 ==> (r matches Err(DecodeError::Rejected { message }) && message@
            == missing),
        payloads.len() >= 2 ==> (r matches Err(DecodeError::Rejected { message }) && message@
            == extra),
        payloads.len() == 1 ==> !(r matches Err(DecodeError::Rejected { .. })),
        r matches Ok(t) ==> decode.ensures((payloads[0],), Ok::<T, E>(t)),
        r matches Err(DecodeError::Deserialize { context: c, source }) ==> (payloads.len() == 1
            && c@ == context && decode.ensures((payloads[0],), Err::<T, E>(source))),
{
}

/// Deserializes the output payload list of the `kind` named `name`, which
/// must hold exactly one payload, with `decode`.
pub fn decode_output<P, T, E, F: Fn(P) -> Result<T, E>>(
    kind: &str,
    name: &str,
    payloads: Vec<P>,
    decode: F,
) -> (r: Result<T, DecodeError<E>>)
    requires
        payloads.len() == 1 ==> decode.requires((payloads@[0],)),
    ensures
        single_payload_decoded(
            payloads@,
            decode,
            output_missing(kind@, name@),
            output_extra(kind@, name@, payloads.len() as nat),
            output_context(kind@, name@),
            r,
        ),
{
    let mut kind_open = kind.to_owned();
    kind_open.append(" `");
    match take_single(payloads) {
        Ok(p) => match decode(p) {
            Ok(t) => Ok(t),
            Err(source) => {
                let mut prefix = "failed to deserialize output for ".to_owned();
                prefix.append(kind_open.as_str());
                assert(prefix@ =~= "failed to deserialize output for "@ + kind@ + " `"@);
                Err(
                    DecodeError::Deserialize {
                        context: named_message(prefix.as_str(), name, "`"),
                        source,
                    },
                )
            },
        },
        Err(0) => Err(
            DecodeError::Rejected {
                message: named_message(
                    kind_open.as_str(),
                    name,
                    "` completed without an output payload",
                ),
            },
        ),
        Err(n) => Err(
            DecodeError::Rejected {
                message: named_count_message(
                    kind_open.as_str(),
                    name,
                    "` completed with ",
                    n,
                    " output payloads; expected exactly one",
                ),
            },
        ),
    }
}

/// Deserializes the success payload list of workflow `workflow_type`, which
/// must hold exactly one payload, with `decode`.
pub fn decode_workflow_output<P, T, E, F: Fn(P) -> Result<T, E>>(
    workflow_type: &str,
    payloads: Vec<P>,
    decode: F,
) -> (r: Result<T, DecodeError<E>>)
    requires
        payloads.len() == 1 ==> decode.requires((payloads@[0],)),
    ensures
        single_payload_decoded(
            payloads@,
            decode,
            output_missing("workflow"@, workflow_type@),
            output_extra("workflow"@, workflow_type@, payloads.len() as nat),
            output_context("workflow"@, workflow_type@),
            r,
        ),
{
    decode_output("workflow", workflow_type, payloads, decode)
}

/// Deserializes the success payload list of workflow update `update_name`,
/// which must hold exactly one payload, with `decode`.
pub fn decode_workflow_update_output<P, T, E, F: Fn(P) -> Result<T, E>>(
    update_name: &str,
    payloads: Vec<P>,
    decode: F,
) -> (r: Result<T, DecodeError<E>>)
    requires
        payloads.len() == 1 ==> decode.requires((payloads@[0],)),
    ensures
        single_payload_decoded(
            payloads@,
            decode,
            output_missing("workflow update"@, update_name@),
            output_extra("workflow update"@, update_name@, payloads.len() as nat),
            output_context("workflow update"@, update_name@),
            r,
        ),
{
    decode_output("workflow update", update_name, payloads, decode)
}

} // verus!
