//! How the stages follow one another.

use vstd::prelude::*;
use crate::effect::{EffectView, ProverJobView, SettingsView, TaskView, VerifierJobView};
use crate::generate::{generate_result, prover_job, ProverEventView};
use crate::json::member_flag;
use crate::request::ProofRequestView;
use crate::transfer::transfer_plan;
use crate::verify::{
    inspected_plan, verifier_job, verify_plan, verify_result, VerifierEventView,
};

verus! {

/// Whether a request's context marks the flow as automated.
pub open spec fn is_automated(request: ProofRequestView) -> bool {
    member_flag(request.additional_context, "is_automated_transfer"@)
}

/// An automated flow runs from generation through verification to the
/// transfer, one step for each success and for the same proof throughout.
///
/// A prover that ends well leads to its report and to exactly one further
/// task, the verification of the same proof for the same request. That task
/// looks for the artifacts and, with both there, runs the verifier. A verifier
/// that ends well leads to the marker, the verdict and exactly one further
/// task, the transfer for the same proof, which posts the request's context as
/// it is.
pub proof fn lemma_automated_chain(
    settings: SettingsView,
    proof_id: Seq<char>,
    request: ProofRequestView,
    file: Seq<char>,
    elapsed_ms: u128,
    proof_size: Option<u64>,
)
    requires
        is_automated(request),
    ensures
        request.additional_context is Some,
        ({
            let generated = generate_result(
                prover_job(settings, proof_id, request, file),
                ProverEventView::Exited { success: true, elapsed_ms, proof_size },
                is_automated(request),
            );
            &&& generated.len() == 2
            &&& generated[0] is Publish
            &&& generated[1] == EffectView::Start(TaskView::Verify { proof_id, request })
        }),
        ({
            let opened = verify_plan(settings, proof_id, request);
            &&& opened.len() == 2
            &&& opened[0] is Publish
            &&& opened[1] == EffectView::Inspect(verifier_job(settings, proof_id, request))
        }),
        inspected_plan(verifier_job(settings, proof_id, request), true, true) == seq![
            EffectView::Check(verifier_job(settings, proof_id, request)),
        ],
        ({
            let verified = verify_result(
                verifier_job(settings, proof_id, request),
                VerifierEventView::Exited { success: true },
                is_automated(request),
            );
            &&& verified.len() == 3
            &&& verified[0] is Mark
            &&& verified[1] is Publish
            &&& verified[2] == EffectView::Start(
                TaskView::Transfer { proof_id, context: request.additional_context->0 },
            )
        }),
        ({
            let transfer = transfer_plan(settings, proof_id, request.additional_context->0);
            &&& transfer.len() == 2
            &&& transfer[0] is Publish
            &&& transfer[1] matches EffectView::Remit { proof_id: id, body, .. }
            &&& id == proof_id
            &&& body == request.additional_context->0
        }),
{
}

/// The generate stage starts a further task only after a prover that ended
/// well, and only in an automated flow.
pub proof fn lemma_generate_chains_on_success_only(
    job: ProverJobView,
    event: ProverEventView,
    automated: bool,
)
    ensures
        forall|i: int|
            0 <= i < generate_result(job, event, automated).len() && (#[trigger] generate_result(
                job,
                event,
                automated,
            )[i]) is Start ==> automated && (event matches ProverEventView::Exited {
                success: true,
                ..
            }),
{
}

/// The verify stage starts a further task only after a verifier that ended
/// well, and only in an automated flow.
pub proof fn lemma_verify_chains_on_success_only(
    job: VerifierJobView,
    event: VerifierEventView,
    automated: bool,
)
    ensures
        forall|i: int|
            0 <= i < verify_result(job, event, automated).len() && (#[trigger] verify_result(
                job,
                event,
                automated,
            )[i]) is Start ==> automated && event == (VerifierEventView::Exited {
                success: true,
            }),
{
}

} // verus!
