//! The verify stage: run the verifier on a proof's artifacts and report the
//! verdict.

use vstd::prelude::*;
use crate::effect::{
    effects, layout_of, Command, CommandView, Effect, EffectView, ProofLayout, Settings,
    SettingsView, Task, TaskView, VerifierJob, VerifierJobView,
};
use crate::envelope::{Envelope, EnvelopeView};
use crate::json::{flag_of, member_flag};
use crate::request::{texts, ProofRequest, ProofRequestView};
use crate::text::{decimal, decimal_string};

verus! {

/// What became of a run of the verifier.
#[derive(Debug, PartialEq, Eq)]
pub enum VerifierEvent {
    /// The process could not be started.
    SpawnFailed { reason: String },
    /// The process started, and waiting for it failed.
    WaitFailed { reason: String },
    /// The process ended, well or not.
    Exited { success: bool },
}

/// What a [`VerifierEvent`] says.
pub enum VerifierEventView {
    SpawnFailed { reason: Seq<char> },
    WaitFailed { reason: Seq<char> },
    Exited { success: bool },
}

impl View for VerifierEvent {
    type V = VerifierEventView;

    open spec fn view(&self) -> VerifierEventView {
        match *self {
            VerifierEvent::SpawnFailed { reason } => VerifierEventView::SpawnFailed {
                reason: reason@,
            },
            VerifierEvent::WaitFailed { reason } => VerifierEventView::WaitFailed {
                reason: reason@,
            },
            VerifierEvent::Exited { success } => VerifierEventView::Exited { success },
        }
    }
}

/// The verifier's arguments: the subcommand, the step size in base ten, then
/// the proof and its public inputs.
pub open spec fn verify_arguments(
    step_size: u64,
    proof: Seq<char>,
    public_inputs: Seq<char>,
) -> Seq<Seq<char>> {
    seq!["verify"@, "--step"@, decimal(step_size as nat), proof, public_inputs]
}

/// The run of the verifier for the proof `proof_id`.
pub open spec fn verifier_job(
    settings: SettingsView,
    proof_id: Seq<char>,
    request: ProofRequestView,
) -> VerifierJobView {
    let layout = layout_of(settings.proofs_dir, proof_id);
    VerifierJobView {
        proof_id,
        request,
        layout,
        command: CommandView {
            program: settings.zkengine_binary,
            arguments: verify_arguments(request.step_size, layout.proof, layout.public_inputs),
        },
    }
}

/// The envelope that says that a proof's artifacts are not there.
pub open spec fn artifacts_missing(proof_id: Seq<char>) -> EffectView {
    EffectView::Publish(
        EnvelopeView::VerificationError {
            proof_id,
            error: "Proof files not found. Make sure the proof ID is correct."@,
        },
    )
}

/// How the verify stage opens: it announces itself and looks for the proof's
/// artifacts.
pub open spec fn verify_plan(
    settings: SettingsView,
    proof_id: Seq<char>,
    request: ProofRequestView,
) -> Seq<EffectView> {
    seq![
        EffectView::Publish(EnvelopeView::VerificationStatus { proof_id }),
        EffectView::Inspect(verifier_job(settings, proof_id, request)),
    ]
}

/// How the verify stage goes on once the artifacts have been looked for: with
/// both there the verifier runs; with either missing the stage says so and
/// ends.
pub open spec fn inspected_plan(
    job: VerifierJobView,
    proof_present: bool,
    public_present: bool,
) -> Seq<EffectView> {
    if proof_present && public_present {
        seq![EffectView::Check(job)]
    } else {
        seq![artifacts_missing(job.proof_id)]
    }
}

/// How the verify stage closes. A verifier that ran gives a verdict, valid or
/// invalid; only one that did not run to its end is an error. A valid proof is
/// marked, and in an automated flow its context goes on to the transfer.
pub open spec fn verify_result(
    job: VerifierJobView,
    event: VerifierEventView,
    automated: bool,
) -> Seq<EffectView> {
    match event {
        VerifierEventView::SpawnFailed { reason } => seq![
            EffectView::Publish(
                EnvelopeView::VerificationError {
                    proof_id: job.proof_id,
                    error: "Failed to start verification: "@ + reason,
                },
            ),
        ],
        VerifierEventView::WaitFailed { reason } => seq![
            EffectView::Publish(
                EnvelopeView::VerificationError {
                    proof_id: job.proof_id,
                    error: "Verification failed: "@ + reason,
                },
            ),
        ],
        VerifierEventView::Exited { success } => if !success {
            seq![
                EffectView::Publish(
                    EnvelopeView::VerificationComplete { proof_id: job.proof_id, valid: false },
                ),
            ]
        } else {
            let mark = EffectView::Mark { path: job.layout.marker };
            let verdict = EffectView::Publish(
                EnvelopeView::VerificationComplete { proof_id: job.proof_id, valid: true },
            );
            match job.request.additional_context {
                Some(context) if automated => seq![
                    mark,
                    verdict,
                    EffectView::Start(TaskView::Transfer { proof_id: job.proof_id, context }),
                ],
                _ => seq![mark, verdict],
            }
        },
    }
}

/// With an artifact missing, the verify stage does the same for a proof each
/// time it is asked, whatever else the job holds and whichever artifact it
/// is: it reports the missing files and starts no process.
pub proof fn lemma_missing_artifacts(
    job: VerifierJobView,
    proof_present: bool,
    public_present: bool,
    job_again: VerifierJobView,
    proof_present_again: bool,
    public_present_again: bool,
)
    requires
        !(proof_present && public_present),
        !(proof_present_again && public_present_again),
        job.proof_id == job_again.proof_id,
    ensures
        inspected_plan(job, proof_present, public_present) == seq![
            artifacts_missing(job.proof_id),
        ],
        inspected_plan(job, proof_present, public_present) == inspected_plan(
            job_again,
            proof_present_again,
            public_present_again,
        ),
        forall|i: int|
            0 <= i < inspected_plan(job, proof_present, public_present).len() ==> !(
            #[trigger] inspected_plan(job, proof_present, public_present)[i]).runs_process(),
{
}

/// A verifier that ran to its end gives a verdict and never an error, valid
/// exactly when it ended well; one that did not gives an error and never a
/// verdict.
pub proof fn lemma_verdict_or_error(job: VerifierJobView, event: VerifierEventView, automated: bool)
    ensures
        forall|i: int|
            0 <= i < verify_result(job, event, automated).len() ==> (match (
            #[trigger] verify_result(job, event, automated)[i]) {
                EffectView::Publish(EnvelopeView::VerificationComplete { valid, .. }) => event
                    == (VerifierEventView::Exited { success: valid }),
                EffectView::Publish(EnvelopeView::VerificationError { .. }) => !(event is Exited),
                _ => true,
            }),
        exists|i: int|
            0 <= i < verify_result(job, event, automated).len() && (#[trigger] verify_result(
                job,
                event,
                automated,
            )[i]) is Publish,
{
    let plan = verify_result(job, event, automated);
    if event is Exited && event->success {
        assert(plan[1] is Publish);
    } else {
        assert(plan[0] is Publish);
    }
}

/// The command that verifies the proof whose files `layout` names.
pub fn verify_command(settings: &Settings, layout: &ProofLayout, step_size: u64) -> (command:
    Command)
    ensures
        command@.program == settings@.zkengine_binary,
        command@.arguments == verify_arguments(step_size, layout@.proof, layout@.public_inputs),
{
    let mut arguments: Vec<String> = Vec::new();
    arguments.push(String::from_str("verify"));
    arguments.push(String::from_str("--step"));
    arguments.push(decimal_string(step_size));
    arguments.push(layout.proof.clone());
    arguments.push(layout.public_inputs.clone());
    assert(texts(arguments@) =~= verify_arguments(
        step_size,
        layout@.proof,
        layout@.public_inputs,
    ));
    Command { program: settings.zkengine_binary.clone(), arguments }
}

/// Opens the verify stage for the proof `proof_id`: the status envelope, then
/// a look at the proof's artifacts.
pub fn verify_proof(settings: &Settings, proof_id: String, request: ProofRequest) -> (out: Vec<
    Effect,
>)
    ensures
        effects(out@) == verify_plan(settings@, proof_id@, request@),
{
    let ghost id = proof_id@;
    let ghost asked = request@;
    let mut out: Vec<Effect> = Vec::new();
    out.push(Effect::Publish(Envelope::VerificationStatus { proof_id: proof_id.clone() }));
    let layout: ProofLayout = settings.layout(proof_id.as_str());
    let command: Command = verify_command(settings, &layout, request.step_size);
    out.push(Effect::Inspect(VerifierJob { proof_id, request, layout, command }));
    assert(effects(out@) =~= verify_plan(settings@, id, asked));
    out
}

/// Goes on with the verify stage, given whether each of the two artifacts is
/// on disk.
///
/// With both there the verifier runs. With either missing the stage ends on
/// an error envelope, the same one each time, and starts no process.
pub fn verify_proof_inspected(job: VerifierJob, proof_present: bool, public_present: bool) -> (out:
    Vec<Effect>)
    ensures
        effects(out@) == inspected_plan(job@, proof_present, public_present),
        !(proof_present && public_present) ==> effects(out@) == seq![
            artifacts_missing(job@.proof_id),
        ],
{
    let ghost planned = job@;
    let mut out: Vec<Effect> = Vec::new();
    if proof_present && public_present {
        out.push(Effect::Check(job));
    } else {
        out.push(
            Effect::Publish(
                Envelope::VerificationError {
                    proof_id: job.proof_id,
                    error: String::from_str(
                        "Proof files not found. Make sure the proof ID is correct.",
                    ),
                },
            ),
        );
    }
    assert(effects(out@) =~= inspected_plan(planned, proof_present, public_present));
    out
}

/// Closes the verify stage on what became of the run, for a flow that is
/// `automated` or not.
pub fn verifier_outcome(job: VerifierJob, event: VerifierEvent, automated: bool) -> (out: Vec<
    Effect,
>)
    ensures
        effects(out@) == verify_result(job@, event@, automated),
{
    let ghost planned = job@;
    let ghost seen = event@;
    let mut out: Vec<Effect> = Vec::new();
    match event {
        VerifierEvent::SpawnFailed { reason } => {
            let error: String = String::from_str("Failed to start verification: ").concat(
                reason.as_str(),
            );
            out.push(Effect::Publish(Envelope::VerificationError { proof_id: job.proof_id, error }));
        },
        VerifierEvent::WaitFailed { reason } => {
            let error: String = String::from_str("Verification failed: ").concat(reason.as_str());
            out.push(Effect::Publish(Envelope::VerificationError { proof_id: job.proof_id, error }));
        },
        VerifierEvent::Exited { success } => {
            if !success {
                out.push(
                    Effect::Publish(
                        Envelope::VerificationComplete { proof_id: job.proof_id, valid: false },
                    ),
                );
            } else {
                out.push(Effect::Mark { path: job.layout.marker });
                match job.request.additional_context {
                    Some(context) if automated => {
                        out.push(
                            Effect::Publish(
                                Envelope::VerificationComplete {
                                    proof_id: job.proof_id.clone(),
                                    valid: true,
                                },
                            ),
                        );
                        out.push(
                            Effect::Start(Task::Transfer { proof_id: job.proof_id, context }),
                        );
                    },
                    _ => {
                        out.push(
                            Effect::Publish(
                                Envelope::VerificationComplete {
                                    proof_id: job.proof_id,
                                    valid: true,
                                },
                            ),
                        );
                    },
                }
            }
        },
    }
    assert(effects(out@) =~= verify_result(planned, seen, automated));
    out
}

/// Closes the verify stage on what became of the run. The flow is automated
/// where the request's context says `is_automated_transfer`.
pub fn verify_proof_finished(job: VerifierJob, event: VerifierEvent) -> (out: Vec<Effect>)
    ensures
        effects(out@) == verify_result(
            job@,
            event@,
            member_flag(job@.request.additional_context, "is_automated_transfer"@),
        ),
{
    let automated: bool = flag_of(&job.request.additional_context, "is_automated_transfer");
    verifier_outcome(job, event, automated)
}

} // verus!
