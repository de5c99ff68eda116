//! The extraction pipeline as a state machine. The library decides and
//! computes; the caller performs the one remote call between the two steps
//! and reports how it went.
//!
//! ```text
//! PreparingImage --Image------------> AwaitingReply   (the request is handed out)
//! PreparingImage --Image------------> Failed          (the image cannot be prepared)
//! AwaitingReply  --Reply------------> Done            (the receipt is handed out)
//! AwaitingReply  --Reply------------> Failed          (the reply is malformed)
//! AwaitingReply  --TransportFailed--> Failed
//! ```
//!
//! The machine is linear: no step leads back, nothing is retried, and a
//! failure carries exactly one of the three kinds of `AnalyzeError`. Building
//! the request and decoding the reply happen inside the steps, so they are
//! no stages at which the machine waits.

use vstd::prelude::*;
use crate::encoding::base64;
use crate::json::document;
use crate::receipt::{is_finite, Receipt};
use crate::reply::{decode_reply, reply_outcome, usage_of, MalformedReply};
use crate::request::{request_body, request_text, IMAGE_BUDGET};
use crate::resize::{
    is_reduction, resize_image, Attempt, ReducedView, Reduction, ReductionView, ResizeError,
};

verus! {

/// Why an analysis ended without a receipt.
#[derive(Debug, Clone, PartialEq)]
pub enum AnalyzeError {
    /// The image could not be brought under the budget.
    ImagePreparation(ResizeError),
    /// The remote call itself failed; the text is the caller's account of it.
    Transport(String),
    /// A reply came, but it carries no receipt.
    MalformedModelReply(MalformedReply),
}

/// Where an analysis stands.
#[derive(Debug, Clone, Copy, PartialEq, Eq)]
pub enum Stage {
    /// Nothing has happened yet: the image is awaited.
    PreparingImage,
    /// The request has been handed out: the reply is awaited.
    AwaitingReply,
    /// The receipt has been handed out.
    Done,
    /// The analysis has failed. Nothing is retried.
    Failed,
}

/// What the caller reports.
#[derive(Debug, Clone, PartialEq)]
pub enum Event {
    /// The raw bytes of the photograph.
    Image(Vec<u8>),
    /// The body of the model's response.
    Reply(Vec<u8>),
    /// The remote call failed, with the caller's account of the failure.
    TransportFailed(String),
}

/// What the caller is to do next.
#[derive(Debug, Clone, PartialEq)]
pub enum Action {
    /// Send this request body to the model and report the outcome.
    Invoke(String),
    /// Hand this receipt to whoever asked.
    Return(Receipt),
    /// Report this failure to whoever asked.
    Fail(AnalyzeError),
}

/// The outcome of one step: the new stage, the action, and what the step
/// leaves for the operator's log (the attempts at shrinking that were over
/// the budget; the usage metadata of the response).
#[derive(Debug, PartialEq)]
pub struct Step {
    pub stage: Stage,
    pub action: Action,
    pub rejected: Vec<Attempt>,
    pub usage: Option<String>,
}

/// The events that a stage admits.
pub open spec fn admits(stage: Stage, event: Event) -> bool {
    match event {
        Event::Image(_) => stage == Stage::PreparingImage,
        Event::Reply(_) => stage == Stage::AwaitingReply,
        Event::TransportFailed(_) => stage == Stage::AwaitingReply,
    }
}

/// The step on an image: the image is reduced to the budget, and the request
/// is built around what the reduction gave. Where the reduction fails, its
/// reason is the failure.
pub open spec fn is_preparation(image: Seq<u8>, out: Step) -> bool {
    &&& out.usage is None
    &&& match out.action {
        Action::Invoke(body) => {
            &&& out.stage == Stage::AwaitingReply
            &&& exists|reduced: ReducedView|
                {
                    &&& #[trigger] is_reduction(
                        image,
                        IMAGE_BUDGET as nat,
                        ReductionView { image: Ok(reduced), rejected: out.rejected@ },
                    )
                    &&& body@ == request_text(base64(reduced.bytes), reduced.media_type)
                }
        },
        Action::Fail(AnalyzeError::ImagePreparation(reason)) => {
            &&& out.stage == Stage::Failed
            &&& is_reduction(
                image,
                IMAGE_BUDGET as nat,
                ReductionView { image: Err(reason), rejected: out.rejected@ },
            )
        },
        _ => false,
    }
}

/// The step on a response body: the receipt that the body carries is handed
/// out, or the reason for which it carries none. The usage metadata is
/// handed out wherever the body is a JSON document.
pub open spec fn is_decoding(body: Seq<u8>, out: Step) -> bool {
    &&& out.rejected@.len() == 0
    &&& match out.usage {
        Some(usage) => document(body) matches Some(envelope) && usage@ == usage_of(envelope),
        None => document(body) is None,
    }
    &&& match reply_outcome(body) {
        Ok(receipt) => {
            &&& out.stage == Stage::Done
            &&& out.action matches Action::Return(found)
            &&& found@ == receipt
            &&& is_finite(found.confidence.bits)
        },
        Err(reason) => {
            &&& out.stage == Stage::Failed
            &&& out.action == Action::Fail(AnalyzeError::MalformedModelReply(reason))
        },
    }
}

/// The step on a failed call: the failure is passed on.
pub open spec fn is_transport_failure(message: Seq<char>, out: Step) -> bool {
    &&& out.stage == Stage::Failed
    &&& out.action matches Action::Fail(AnalyzeError::Transport(account))
    &&& account@ == message
    &&& out.rejected@.len() == 0
    &&& out.usage is None
}

/// Turns the outcome of the reduction into the step on the image: around a
/// reduced image the request is built, under the media type that the
/// reduction gave with it; a failed reduction fails the analysis with its
/// reason. The log of the reduction is passed on.
pub fn prepare(reduction: Reduction) -> (out: Step)
    requires
        reduction.image matches Ok(reduced) ==> (reduced.bytes@.len() + 2) / 3 * 4 <= usize::MAX,
    ensures
        out.usage is None,
        out.rejected@ == reduction.rejected@,
        match reduction.image {
            Ok(reduced) => {
                &&& out.stage == Stage::AwaitingReply
                &&& out.action matches Action::Invoke(body)
                &&& body@ == request_text(base64(reduced.bytes@), reduced.media_type@)
            },
            Err(reason) => {
                &&& out.stage == Stage::Failed
                &&& out.action == Action::Fail(AnalyzeError::ImagePreparation(reason))
            },
        },
{
    match reduction.image {
        Ok(reduced) => {
            let body = request_body(reduced.bytes.as_slice(), reduced.media_type.as_str());
            Step {
                stage: Stage::AwaitingReply,
                action: Action::Invoke(body),
                rejected: reduction.rejected,
                usage: None,
            }
        },
        Err(reason) => Step {
            stage: Stage::Failed,
            action: Action::Fail(AnalyzeError::ImagePreparation(reason)),
            rejected: reduction.rejected,
            usage: None,
        },
    }
}

/// One step of an analysis. An analysis takes two: the first turns the image
/// into the request (`resize_image`, then `prepare`), the second turns the
/// outcome of the remote call into the receipt or the failure
/// (`decode_reply`).
pub fn analyze(stage: Stage, event: Event) -> (out: Step)
    requires
        admits(stage, event),
    ensures
        match event {
            Event::Image(image) => is_preparation(image@, out),
            Event::Reply(body) => is_decoding(body@, out),
            Event::TransportFailed(message) => is_transport_failure(message@, out),
        },
{
    match event {
        Event::Image(image) => {
            let reduction = resize_image(image.as_slice(), IMAGE_BUDGET);
            let ghost reduced = reduction@;
            let out = prepare(reduction);
            proof {
                if reduced.image is Ok {
                    assert(is_reduction(
                        image@,
                        IMAGE_BUDGET as nat,
                        ReductionView { image: Ok(reduced.image->Ok_0), rejected: out.rejected@ },
                    ));
                }
            }
            out
        },
        Event::Reply(body) => {
            let decoded = decode_reply(body.as_slice());
            match decoded.receipt {
                Ok(receipt) => Step {
                    stage: Stage::Done,
                    action: Action::Return(receipt),
                    rejected: Vec::new(),
                    usage: decoded.usage,
                },
                Err(reason) => Step {
                    stage: Stage::Failed,
                    action: Action::Fail(AnalyzeError::MalformedModelReply(reason)),
                    rejected: Vec::new(),
                    usage: decoded.usage,
                },
            }
        },
        Event::TransportFailed(message) => Step {
            stage: Stage::Failed,
            action: Action::Fail(AnalyzeError::Transport(message)),
            rejected: Vec::new(),
            usage: None,
        },
    }
}

} // verus!
