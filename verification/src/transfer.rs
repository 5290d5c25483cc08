//! The transfer stage: hand a verified request's context to the transfer
//! collaborator and report its answer.

use vstd::prelude::*;
use crate::effect::{effects, Effect, EffectView, Settings, SettingsView};
use crate::envelope::{Envelope, EnvelopeView};
use crate::json::{flag_in, member_flag, member_text, optional_text, text_in};

verus! {

/// What the transfer collaborator answered.
#[derive(Debug, PartialEq, Eq)]
pub enum TransferReply {
    /// The call itself failed, for the reason given.
    Unreachable { reason: String },
    /// The collaborator answered with `body`.
    Answered { body: String },
}

/// What a [`TransferReply`] says.
pub enum TransferReplyView {
    Unreachable { reason: Seq<char> },
    Answered { body: Seq<char> },
}

impl View for TransferReply {
    type V = TransferReplyView;

    open spec fn view(&self) -> TransferReplyView {
        match *self {
            TransferReply::Unreachable { reason } => TransferReplyView::Unreachable {
                reason: reason@,
            },
            TransferReply::Answered { body } => TransferReplyView::Answered { body: body@ },
        }
    }
}

/// How the transfer stage opens: it announces itself and sends the context,
/// as it is, to the collaborator.
pub open spec fn transfer_plan(
    settings: SettingsView,
    proof_id: Seq<char>,
    context: Seq<char>,
) -> Seq<EffectView> {
    seq![
        EffectView::Publish(EnvelopeView::TransferStatus { proof_id }),
        EffectView::Remit {
            proof_id,
            url: settings.langchain_url + "/execute_verified_transfer"@,
            body: context,
        },
    ]
}

/// How the transfer stage closes, where `success` and `detail` are what the
/// answer says under those names. An answer that does not say `success` is a
/// failure, told in the collaborator's own words if it gave any.
pub open spec fn transfer_result(
    proof_id: Seq<char>,
    reply: TransferReplyView,
    success: bool,
    detail: Option<Seq<char>>,
) -> Seq<EffectView> {
    match reply {
        TransferReplyView::Unreachable { reason } => seq![
            EffectView::Publish(
                EnvelopeView::TransferError {
                    proof_id,
                    error: "Failed to execute transfer: "@ + reason,
                },
            ),
        ],
        TransferReplyView::Answered { body } => if success {
            seq![EffectView::Publish(EnvelopeView::TransferComplete { proof_id, result: body })]
        } else {
            seq![
                EffectView::Publish(
                    EnvelopeView::TransferError {
                        proof_id,
                        error: match detail {
                            Some(words) => words,
                            None => "Transfer failed"@,
                        },
                    },
                ),
            ]
        },
    }
}

/// What the answer says under `success` and under `detail`.
pub open spec fn answer_of(reply: TransferReplyView) -> (bool, Option<Seq<char>>) {
    match reply {
        TransferReplyView::Unreachable { .. } => (false, None),
        TransferReplyView::Answered { body } => (
            member_flag(Some(body), "success"@),
            member_text(Some(body), "detail"@),
        ),
    }
}

/// Opens the transfer stage for the proof `proof_id`.
pub fn execute_transfer(settings: &Settings, proof_id: String, context: String) -> (out: Vec<
    Effect,
>)
    ensures
        effects(out@) == transfer_plan(settings@, proof_id@, context@),
{
    let ghost id = proof_id@;
    let ghost body = context@;
    let url: String = settings.langchain_url.clone().concat("/execute_verified_transfer");
    let mut out: Vec<Effect> = Vec::new();
    out.push(Effect::Publish(Envelope::TransferStatus { proof_id: proof_id.clone() }));
    out.push(Effect::Remit { proof_id, url, body: context });
    assert(effects(out@) =~= transfer_plan(settings@, id, body));
    out
}

/// Closes the transfer stage on the collaborator's answer, where `success`
/// and `detail` have been read from it.
///
/// A successful transfer is reported with the whole answer. Every other
/// answer is an error, and so is a collaborator that could not be reached.
pub fn transfer_outcome(
    proof_id: String,
    reply: TransferReply,
    success: bool,
    detail: Option<String>,
) -> (out: Vec<Effect>)
    ensures
        effects(out@) == transfer_result(proof_id@, reply@, success, optional_text(detail)),
{
    let ghost plan = transfer_result(proof_id@, reply@, success, optional_text(detail));
    let mut out: Vec<Effect> = Vec::new();
    match reply {
        TransferReply::Unreachable { reason } => {
            let error: String = String::from_str("Failed to execute transfer: ").concat(
                reason.as_str(),
            );
            out.push(Effect::Publish(Envelope::TransferError { proof_id, error }));
        },
        TransferReply::Answered { body } => {
            if success {
                out.push(Effect::Publish(Envelope::TransferComplete { proof_id, result: body }));
            } else {
                let error: String = match detail {
                    Some(words) => words,
                    None => String::from_str("Transfer failed"),
                };
                out.push(Effect::Publish(Envelope::TransferError { proof_id, error }));
            }
        },
    }
    assert(effects(out@) =~= plan);
    out
}

/// Closes the transfer stage on the collaborator's answer.
pub fn execute_transfer_finished(proof_id: String, reply: TransferReply) -> (out: Vec<Effect>)
    ensures
        effects(out@) == transfer_result(
            proof_id@,
            reply@,
            answer_of(reply@).0,
            answer_of(reply@).1,
        ),
{
    match reply {
        TransferReply::Unreachable { reason } => transfer_outcome(
            proof_id,
            TransferReply::Unreachable { reason },
            false,
            None,
        ),
        TransferReply::Answered { body } => {
            let success: bool = flag_in(body.as_str(), "success");
            let detail: Option<String> = text_in(body.as_str(), "detail");
            transfer_outcome(proof_id, TransferReply::Answered { body }, success, detail)
        },
    }
}

} // verus!
