//! The generate stage: run the prover on a request and report what came of it.

use vstd::prelude::*;
use crate::effect::{
    effects, layout_of, Command, CommandView, Effect, EffectView, ProofLayout, ProverJob,
    ProverJobView, Settings, SettingsView, Task, TaskView,
};
use crate::envelope::{Envelope, EnvelopeView};
use crate::json::{flag_of, member_flag, member_text, optional_text, text_of};
use crate::request::{texts, ProofRequest, ProofRequestView};
use crate::text::{decimal, decimal_string, join_path, joined, same_text};

verus! {

/// What became of a run of the prover.
#[derive(Debug, PartialEq, Eq)]
pub enum ProverEvent {
    /// The process could not be started.
    SpawnFailed { reason: String },
    /// The process started, and waiting for it failed.
    WaitFailed,
    /// The process ended. `proof_size` is the size of the proof artifact, where
    /// the run succeeded and the artifact is there.
    Exited { success: bool, elapsed_ms: u128, proof_size: Option<u64> },
}

/// What a [`ProverEvent`] says.
pub enum ProverEventView {
    SpawnFailed { reason: Seq<char> },
    WaitFailed,
    Exited { success: bool, elapsed_ms: u128, proof_size: Option<u64> },
}

impl View for ProverEvent {
    type V = ProverEventView;

    open spec fn view(&self) -> ProverEventView {
        match *self {
            ProverEvent::SpawnFailed { reason } => ProverEventView::SpawnFailed { reason: reason@ },
            ProverEvent::WaitFailed => ProverEventView::WaitFailed,
            ProverEvent::Exited { success, elapsed_ms, proof_size } => ProverEventView::Exited {
                success,
                elapsed_ms,
                proof_size,
            },
        }
    }
}

/// The program that proves `function`. The three built-in functions have one
/// each; a custom proof names its own in the request's context, as `custom`,
/// or gets the prime checker. No other function has one.
pub open spec fn wasm_file(function: Seq<char>, custom: Option<Seq<char>>) -> Option<Seq<char>> {
    if function == "prove_kyc"@ {
        Some("prove_kyc.wasm"@)
    } else if function == "prove_ai_content"@ {
        Some("prove_ai_content.wasm"@)
    } else if function == "prove_location"@ {
        Some("prove_location.wasm"@)
    } else if function == "prove_custom"@ {
        Some(
            match custom {
                Some(file) => file,
                None => "prime_checker.wasm"@,
            },
        )
    } else {
        None
    }
}

/// The prover's arguments: the subcommand, the program, the directory for its
/// output, the step size in base ten, then the request's own arguments in
/// their order.
pub open spec fn prove_arguments(
    wasm_path: Seq<char>,
    directory: Seq<char>,
    step_size: u64,
    arguments: Seq<Seq<char>>,
) -> Seq<Seq<char>> {
    seq![
        "prove"@,
        "--wasm"@,
        wasm_path,
        "--out-dir"@,
        directory,
        "--step"@,
        decimal(step_size as nat),
    ] + arguments
}

/// The run of the prover for `request`, with `file` as its program.
pub open spec fn prover_job(
    settings: SettingsView,
    proof_id: Seq<char>,
    request: ProofRequestView,
    file: Seq<char>,
) -> ProverJobView {
    let layout = layout_of(settings.proofs_dir, proof_id);
    ProverJobView {
        proof_id,
        request,
        layout,
        command: CommandView {
            program: settings.zkengine_binary,
            arguments: prove_arguments(
                joined(settings.wasm_dir, file),
                layout.directory,
                request.step_size,
                request.arguments,
            ),
        },
    }
}

/// How the generate stage opens when `file` is the program for the request,
/// if there is one: it announces itself, then either makes ready for the
/// prover or, without a program, says so and ends.
pub open spec fn generate_plan_with(
    settings: SettingsView,
    proof_id: Seq<char>,
    request: ProofRequestView,
    file: Option<Seq<char>>,
) -> Seq<EffectView> {
    let announce = EffectView::Publish(EnvelopeView::ProofStatus { proof_id, metadata: request });
    match file {
        Some(file) => seq![
            announce,
            EffectView::Prepare(prover_job(settings, proof_id, request, file)),
        ],
        None => seq![
            announce,
            EffectView::Publish(
                EnvelopeView::ProofError {
                    proof_id,
                    error: "Unknown proof function: "@ + request.function,
                },
            ),
        ],
    }
}

/// How the generate stage opens: with the program that [`wasm_file`] gives
/// for the request's function, a custom proof naming its own under
/// `wasm_file` in the request's context.
pub open spec fn generate_plan(
    settings: SettingsView,
    proof_id: Seq<char>,
    request: ProofRequestView,
) -> Seq<EffectView> {
    generate_plan_with(
        settings,
        proof_id,
        request,
        wasm_file(request.function, member_text(request.additional_context, "wasm_file"@)),
    )
}

/// How the generate stage goes on once the proof's directory has been seen
/// to: with the directory there, the request is written into it and then the
/// prover runs; without it the stage ends, and nothing is published.
pub open spec fn prepared_plan(job: ProverJobView, created: bool) -> Seq<EffectView> {
    if created {
        seq![
            EffectView::Record { path: job.layout.metadata, request: job.request },
            EffectView::Prove(job),
        ]
    } else {
        seq![]
    }
}

/// How the generate stage closes. Only a run that ended well is a success, and
/// only a success of an automated flow goes on to verification.
pub open spec fn generate_result(
    job: ProverJobView,
    event: ProverEventView,
    automated: bool,
) -> Seq<EffectView> {
    match event {
        ProverEventView::WaitFailed => seq![],
        ProverEventView::SpawnFailed { reason } => seq![
            EffectView::Publish(
                EnvelopeView::ProofError {
                    proof_id: job.proof_id,
                    error: "Failed to start proof generation: "@ + reason,
                },
            ),
        ],
        ProverEventView::Exited { success, elapsed_ms, proof_size } => if !success {
            seq![
                EffectView::Publish(
                    EnvelopeView::ProofError {
                        proof_id: job.proof_id,
                        error: "Proof generation failed"@,
                    },
                ),
            ]
        } else {
            let complete = EffectView::Publish(
                EnvelopeView::ProofComplete {
                    proof_id: job.proof_id,
                    time_ms: elapsed_ms,
                    proof_size: match proof_size {
                        Some(size) => size,
                        None => 0,
                    },
                    metadata: job.request,
                },
            );
            if automated {
                seq![
                    complete,
                    EffectView::Start(
                        TaskView::Verify { proof_id: job.proof_id, request: job.request },
                    ),
                ]
            } else {
                seq![complete]
            }
        },
    }
}

/// What the generate stage has written down before the prover runs is the
/// request as it came, in the metadata file of the proof's own directory.
pub proof fn lemma_request_recorded(
    settings: SettingsView,
    proof_id: Seq<char>,
    request: ProofRequestView,
    file: Seq<char>,
)
    ensures
        ({
            let job = prover_job(settings, proof_id, request, file);
            &&& generate_plan_with(settings, proof_id, request, Some(file))[1]
                == EffectView::Prepare(job)
            &&& prepared_plan(job, true) == seq![
                EffectView::Record {
                    path: layout_of(settings.proofs_dir, proof_id).metadata,
                    request,
                },
                EffectView::Prove(job),
            ]
        }),
{
}

/// The program that proves `function`, where there is one.
pub fn wasm_file_for(function: &str, custom: Option<String>) -> (file: Option<String>)
    ensures
        optional_text(file) == wasm_file(function@, optional_text(custom)),
{
    if same_text(function, "prove_kyc") {
        Some(String::from_str("prove_kyc.wasm"))
    } else if same_text(function, "prove_ai_content") {
        Some(String::from_str("prove_ai_content.wasm"))
    } else if same_text(function, "prove_location") {
        Some(String::from_str("prove_location.wasm"))
    } else if same_text(function, "prove_custom") {
        match custom {
            Some(file) => Some(file),
            None => Some(String::from_str("prime_checker.wasm")),
        }
    } else {
        None
    }
}

/// The command that proves `request` with the program `wasm_file`, writing
/// into `directory`.
pub fn prove_command(
    settings: &Settings,
    wasm_file: &str,
    directory: &str,
    request: &ProofRequest,
) -> (command: Command)
    ensures
        command@.program == settings@.zkengine_binary,
        command@.arguments == prove_arguments(
            joined(settings@.wasm_dir, wasm_file@),
            directory@,
            request@.step_size,
            request@.arguments,
        ),
{
    let mut arguments: Vec<String> = Vec::new();
    arguments.push(String::from_str("prove"));
    arguments.push(String::from_str("--wasm"));
    arguments.push(join_path(settings.wasm_dir.as_str(), wasm_file));
    arguments.push(String::from_str("--out-dir"));
    arguments.push(String::from_str(directory));
    arguments.push(String::from_str("--step"));
    arguments.push(decimal_string(request.step_size));
    let ghost head = texts(arguments@);
    assert(head =~= seq![
        "prove"@,
        "--wasm"@,
        joined(settings@.wasm_dir, wasm_file@),
        "--out-dir"@,
        directory@,
        "--step"@,
        decimal(request.step_size as nat),
    ]);
    let mut i: usize = 0;
    while i < request.arguments.len()
        invariant
            i <= request.arguments.len(),
            head.len() == 7,
            arguments@.len() == 7 + i,
            forall|k: int| 0 <= k < 7 ==> arguments@[k]@ == head[k],
            forall|k: int| 0 <= k < i ==> arguments@[7 + k]@ == request.arguments@[k]@,
        decreases request.arguments.len() - i,
    {
        arguments.push(request.arguments[i].clone());
        i += 1;
    }
    assert(texts(arguments@) =~= head + texts(request.arguments@)) by {
        assert forall|k: int| 0 <= k < 7 + i implies texts(arguments@)[k] == (head + texts(
            request.arguments@,
        ))[k] by {
            if k >= 7 {
                assert(arguments@[7 + (k - 7)]@ == request.arguments@[k - 7]@);
            }
        }
    }
    Command { program: settings.zkengine_binary.clone(), arguments }
}

/// Opens the generate stage for `request`, with `file` as its program.
///
/// The status envelope always comes first. Without a program the stage ends
/// with an error envelope that names the request's function; with one it
/// makes ready for the prover, whose command is that of [`prove_command`].
pub fn generate_proof_with(
    settings: &Settings,
    proof_id: String,
    request: ProofRequest,
    file: Option<String>,
) -> (out: Vec<Effect>)
    ensures
        effects(out@) == generate_plan_with(settings@, proof_id@, request@, optional_text(file)),
{
    let ghost plan = generate_plan_with(settings@, proof_id@, request@, optional_text(file));
    let mut out: Vec<Effect> = Vec::new();
    out.push(
        Effect::Publish(
            Envelope::ProofStatus { proof_id: proof_id.clone(), metadata: request.clone() },
        ),
    );
    match file {
        Some(file) => {
            let layout: ProofLayout = settings.layout(proof_id.as_str());
            let command: Command = prove_command(
                settings,
                file.as_str(),
                layout.directory.as_str(),
                &request,
            );
            out.push(Effect::Prepare(ProverJob { proof_id, request, layout, command }));
        },
        None => {
            let error: String = String::from_str("Unknown proof function: ").concat(
                request.function.as_str(),
            );
            out.push(Effect::Publish(Envelope::ProofError { proof_id, error }));
        },
    }
    assert(effects(out@) =~= plan);
    out
}

/// Opens the generate stage for `request`.
///
/// The program is the one that [`wasm_file_for`] gives for the request's
/// function; a custom proof names its own in the request's context.
pub fn generate_proof(settings: &Settings, proof_id: String, request: ProofRequest) -> (out: Vec<
    Effect,
>)
    ensures
        effects(out@) == generate_plan(settings@, proof_id@, request@),
{
    let custom: Option<String> = if same_text(request.function.as_str(), "prove_custom") {
        text_of(&request.additional_context, "wasm_file")
    } else {
        None
    };
    let file: Option<String> = wasm_file_for(request.function.as_str(), custom);
    generate_proof_with(settings, proof_id, request, file)
}

/// Goes on with the generate stage once the proof's directory has been seen
/// to.
///
/// Where the directory is there, the request is written to the metadata file
/// first and the prover runs second; a request that cannot be written does
/// not hold the prover up. Where the directory could not be made the stage
/// ends without a word.
pub fn generate_proof_prepared(job: ProverJob, created: bool) -> (out: Vec<Effect>)
    ensures
        effects(out@) == prepared_plan(job@, created),
{
    let ghost planned = job@;
    let mut out: Vec<Effect> = Vec::new();
    if created {
        out.push(Effect::Record { path: job.layout.metadata.clone(), request: job.request.clone() });
        out.push(Effect::Prove(job));
    }
    assert(effects(out@) =~= prepared_plan(planned, created));
    out
}

/// Closes the generate stage on what became of the run, for a flow that is
/// `automated` or not.
///
/// A run that ended well is reported with its duration and the size of the
/// proof (zero where the artifact is missing), and an automated flow goes on
/// to verify the same proof. A run that ended badly, or never started, is
/// reported as an error. Where waiting for the run failed, nothing is
/// published.
pub fn prover_outcome(job: ProverJob, event: ProverEvent, automated: bool) -> (out: Vec<Effect>)
    ensures
        effects(out@) == generate_result(job@, event@, automated),
{
    let ghost planned = job@;
    let ghost seen = event@;
    let mut out: Vec<Effect> = Vec::new();
    match event {
        ProverEvent::WaitFailed => {},
        ProverEvent::SpawnFailed { reason } => {
            let error: String = String::from_str("Failed to start proof generation: ").concat(
                reason.as_str(),
            );
            out.push(Effect::Publish(Envelope::ProofError { proof_id: job.proof_id, error }));
        },
        ProverEvent::Exited { success, elapsed_ms, proof_size } => {
            if !success {
                out.push(
                    Effect::Publish(
                        Envelope::ProofError {
                            proof_id: job.proof_id,
                            error: String::from_str("Proof generation failed"),
                        },
                    ),
                );
            } else {
                let size: u64 = match proof_size {
                    Some(size) => size,
                    None => 0,
                };
                if automated {
                    out.push(
                        Effect::Publish(
                            Envelope::ProofComplete {
                                proof_id: job.proof_id.clone(),
                                time_ms: elapsed_ms,
                                proof_size: size,
                                metadata: job.request.clone(),
                            },
                        ),
                    );
                    out.push(
                        Effect::Start(
                            Task::Verify { proof_id: job.proof_id, request: job.request },
                        ),
                    );
                } else {
                    out.push(
                        Effect::Publish(
                            Envelope::ProofComplete {
                                proof_id: job.proof_id,
                                time_ms: elapsed_ms,
                                proof_size: size,
                                metadata: job.request,
                            },
                        ),
                    );
                }
            }
        },
    }
    assert(effects(out@) =~= generate_result(planned, seen, automated));
    out
}

/// Closes the generate stage on what became of the run. The flow is automated
/// where the request's context says `is_automated_transfer`.
pub fn generate_proof_finished(job: ProverJob, event: ProverEvent) -> (out: Vec<Effect>)
    ensures
        effects(out@) == generate_result(
            job@,
            event@,
            member_flag(job@.request.additional_context, "is_automated_transfer"@),
        ),
{
    let automated: bool = flag_of(&job.request.additional_context, "is_automated_transfer");
    prover_outcome(job, event, automated)
}

} // verus!
