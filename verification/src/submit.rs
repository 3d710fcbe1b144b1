use vstd::prelude::*;

use crate::codec::{enc_signed, encode_signed_transaction};
use crate::ext::{base64_of, to_base64};
use crate::model::SignedTransaction;
use crate::text::{contains_seq, str_contains};

verus! {

// ---------------------------------------------------------------------------
// Delivering a signed envelope: offline display, or online broadcast with
// bounded-condition retry.
//
// The network call itself happens outside; this module decides, for every
// broadcast outcome, whether to accept, re-submit the byte-identical payload,
// or fail — a failure is retried exactly when its textual detail carries the
// timeout marker.
// ---------------------------------------------------------------------------

/// The terminal action chosen for a signed transaction: transmit it, or only
/// show it.
#[derive(Debug, Clone, Copy, PartialEq, Eq, Structural)]
pub enum Submit {
    Send,
    Display,
}

/// What a signed transaction is shown as: its structured form and its
/// canonical transmissible rendering, always produced together.
#[derive(Debug, Clone, PartialEq, Eq)]
pub struct Rendering {
    pub signed_transaction: SignedTransaction,
    pub serialize_to_base64: String,
}

/// A broadcast failure as reported by the remote, with its optional textual
/// detail.
#[derive(Debug, PartialEq, Eq)]
pub struct BroadcastFailure {
    pub detail: Option<String>,
}

/// The remote's terminal answer to one submission attempt.
#[derive(Debug, PartialEq, Eq)]
pub enum BroadcastOutcome {
    Committed { transaction_id: String },
    Failed(BroadcastFailure),
}

/// What to do after one submission attempt.
#[derive(Debug, PartialEq, Eq)]
pub enum SubmitStep {
    Done(String),
    Retry(String),
    Fatal(BroadcastFailure),
}

/// Whether a failure is transient: its detail carries the timeout marker.
pub open spec fn spec_retryable_failure(f: BroadcastFailure) -> bool {
    match f.detail {
        Some(d) => contains_seq(d@, "Timeout"@),
        None => false,
    }
}

/// One in-flight submission: the payload is fixed when the submission is
/// created and every attempt re-sends it unchanged.
pub struct Submission {
    pub payload: String,
}

impl Submission {
    /// Fixes the payload: the canonical transmissible rendering of the
    /// signed transaction.
    pub fn new(signed_transaction: &SignedTransaction) -> (r: Submission)
        ensures
            r.payload@ == base64_of(enc_signed(signed_transaction@)),
    {
        let bytes = encode_signed_transaction(signed_transaction);
        Submission { payload: to_base64(&bytes) }
    }

    /// The payload of the next attempt; always the fixed one.
    pub fn attempt_payload(&self) -> (r: String)
        ensures
            r@ == self.payload@,
    {
        self.payload.clone()
    }

    /// Decides what one broadcast outcome means: a commit is accepted; a
    /// failure whose detail carries the timeout marker is retried with the
    /// byte-identical payload; any other failure is fatal, surfaced at once.
    pub fn on_outcome(&self, outcome: BroadcastOutcome) -> (r: SubmitStep)
        ensures
            (outcome matches BroadcastOutcome::Committed { transaction_id } ==> r
                == SubmitStep::Done(transaction_id)),
            (outcome matches BroadcastOutcome::Failed(f) ==> {
                if spec_retryable_failure(f) {
                    r matches SubmitStep::Retry(p) && p@ == self.payload@
                } else {
                    r == SubmitStep::Fatal(f)
                }
            }),
    {
        match outcome {
            BroadcastOutcome::Committed { transaction_id } => SubmitStep::Done(transaction_id),
            BroadcastOutcome::Failed(failure) => {
                let retryable = match &failure.detail {
                    Some(detail) => str_contains(detail.as_str(), "Timeout"),
                    None => false,
                };
                if retryable {
                    SubmitStep::Retry(self.payload.clone())
                } else {
                    SubmitStep::Fatal(failure)
                }
            },
        }
    }
}

/// Renders a signed transaction: its structured form and its canonical
/// transmissible rendering, always the two together.
pub fn render_signed(signed_transaction: SignedTransaction) -> (r: Rendering)
    ensures
        r.signed_transaction == signed_transaction,
        r.serialize_to_base64@ == base64_of(enc_signed(signed_transaction@)),
{
    let bytes = encode_signed_transaction(&signed_transaction);
    let serialize_to_base64 = to_base64(&bytes);
    Rendering { signed_transaction, serialize_to_base64 }
}

impl Submit {
    /// The offline path: rendering only, with no further action.
    pub fn process_offline(self, signed_transaction: SignedTransaction) -> (r: Rendering)
        ensures
            r.signed_transaction == signed_transaction,
            r.serialize_to_base64@ == base64_of(enc_signed(signed_transaction@)),
    {
        render_signed(signed_transaction)
    }

    /// The online path: always renders both forms; chooses a submission to
    /// transmit exactly when the terminal action is `Send`.
    pub fn process_online(self, signed_transaction: SignedTransaction) -> (r: (
        Rendering,
        Option<Submission>,
    ))
        ensures
            r.0.signed_transaction == signed_transaction,
            r.0.serialize_to_base64@ == base64_of(enc_signed(signed_transaction@)),
            self == Submit::Send ==> (r.1 matches Some(s) && s.payload@ == base64_of(
                enc_signed(signed_transaction@),
            )),
            self == Submit::Display ==> r.1 is None,
    {
        let submission = match self {
            Submit::Send => Some(Submission::new(&signed_transaction)),
            Submit::Display => None,
        };
        let rendering = render_signed(signed_transaction);
        (rendering, submission)
    }
}

} // verus!
