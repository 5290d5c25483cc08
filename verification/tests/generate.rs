use proof_pipeline::effect::{Effect, Settings, Task};
use proof_pipeline::envelope::Envelope;
use proof_pipeline::generate::{
    generate_proof, generate_proof_finished, generate_proof_prepared, generate_proof_with,
    prove_command, prover_outcome, wasm_file_for, ProverEvent,
};
use proof_pipeline::request::ProofRequest;

fn settings() -> Settings {
    Settings {
        langchain_url: "http://localhost:8002".to_string(),
        zkengine_binary: "./zkengine/zkEngine".to_string(),
        proofs_dir: "./proofs".to_string(),
        wasm_dir: "./zkengine/example_wasms".to_string(),
    }
}

fn request(function: &str, context: Option<&str>) -> ProofRequest {
    ProofRequest {
        function: function.to_string(),
        arguments: vec!["0x1".to_string(), "0x2".to_string()],
        step_size: 5,
        explanation: "because".to_string(),
        additional_context: context.map(|c| c.to_string()),
    }
}

fn job(context: Option<&str>) -> proof_pipeline::effect::ProverJob {
    let mut effects = generate_proof(&settings(), "id-1".to_string(), request("prove_kyc", context));
    match effects.pop() {
        Some(Effect::Prepare(job)) => job,
        other => panic!("no prover job: {:?}", other),
    }
}

#[test]
fn kyc_request_spawns_the_prover_with_the_exact_arguments() {
    let effects = generate_proof_prepared(job(None), true);
    assert_eq!(effects.len(), 2);
    match &effects[1] {
        Effect::Prove(job) => {
            assert_eq!(job.command.program, "./zkengine/zkEngine");
            assert_eq!(
                job.command.arguments,
                vec![
                    "prove",
                    "--wasm",
                    "./zkengine/example_wasms/prove_kyc.wasm",
                    "--out-dir",
                    "./proofs/id-1",
                    "--step",
                    "5",
                    "0x1",
                    "0x2",
                ]
            );
            assert_eq!(job.proof_id, "id-1");
            assert_eq!(job.request, request("prove_kyc", None));
            assert_eq!(job.layout.directory, "./proofs/id-1");
            assert_eq!(job.layout.metadata, "./proofs/id-1/metadata.json");
            assert_eq!(job.layout.proof, "./proofs/id-1/proof.bin");
            assert_eq!(job.layout.public_inputs, "./proofs/id-1/public.json");
            assert_eq!(job.layout.marker, "./proofs/id-1/.verified");
        }
        other => panic!("no prover job: {:?}", other),
    }
}

#[test]
fn generate_announces_itself_first() {
    for function in ["prove_kyc", "no_such_function"] {
        let effects = generate_proof(&settings(), "id-1".to_string(), request(function, None));
        assert_eq!(
            effects[0],
            Effect::Publish(Envelope::ProofStatus {
                proof_id: "id-1".to_string(),
                metadata: request(function, None),
            })
        );
    }
}

#[test]
fn unknown_function_ends_the_stage_with_an_error() {
    let effects = generate_proof(&settings(), "id-1".to_string(), request("prove_nothing", None));
    assert_eq!(effects.len(), 2);
    assert_eq!(
        effects[1],
        Effect::Publish(Envelope::ProofError {
            proof_id: "id-1".to_string(),
            error: "Unknown proof function: prove_nothing".to_string(),
        })
    );
}

#[test]
fn list_proofs_is_no_function_to_prove() {
    let effects = generate_proof(&settings(), "id-1".to_string(), request("list_proofs", None));
    assert!(matches!(&effects[1], Effect::Publish(Envelope::ProofError { .. })));
}

#[test]
fn each_builtin_function_has_its_program() {
    assert_eq!(wasm_file_for("prove_kyc", None), Some("prove_kyc.wasm".to_string()));
    assert_eq!(wasm_file_for("prove_ai_content", None), Some("prove_ai_content.wasm".to_string()));
    assert_eq!(wasm_file_for("prove_location", None), Some("prove_location.wasm".to_string()));
    assert_eq!(wasm_file_for("prove_custom", None), Some("prime_checker.wasm".to_string()));
    assert_eq!(
        wasm_file_for("prove_custom", Some("fib.wasm".to_string())),
        Some("fib.wasm".to_string())
    );
    assert_eq!(wasm_file_for("prove_kyc", Some("fib.wasm".to_string())), Some("prove_kyc.wasm".to_string()));
    assert_eq!(wasm_file_for("other", Some("fib.wasm".to_string())), None);
    assert_eq!(wasm_file_for("", None), None);
}

#[test]
fn custom_proof_takes_its_program_from_the_context() {
    let effects = generate_proof(
        &settings(),
        "id-1".to_string(),
        request("prove_custom", Some("{\"wasm_file\": \"fib.wasm\"}")),
    );
    match &effects[1] {
        Effect::Prepare(job) => {
            assert_eq!(job.command.arguments[2], "./zkengine/example_wasms/fib.wasm")
        }
        other => panic!("no prover job: {:?}", other),
    }
}

#[test]
fn custom_proof_without_a_named_program_gets_the_prime_checker() {
    for context in [None, Some("{}"), Some("{\"wasm_file\": 3}"), Some("not json")] {
        let effects =
            generate_proof(&settings(), "id-1".to_string(), request("prove_custom", context));
        match &effects[1] {
            Effect::Prepare(job) => {
                assert_eq!(job.command.arguments[2], "./zkengine/example_wasms/prime_checker.wasm")
            }
            other => panic!("no prover job: {:?}", other),
        }
    }
}

#[test]
fn prove_command_without_arguments_ends_at_the_step() {
    let mut asked = request("prove_location", None);
    asked.arguments.clear();
    asked.step_size = 1000;
    let command = prove_command(&settings(), "prove_location.wasm", "out", &asked);
    assert_eq!(
        command.arguments,
        vec!["prove", "--wasm", "./zkengine/example_wasms/prove_location.wasm", "--out-dir", "out", "--step", "1000"]
    );
}

#[test]
fn success_is_reported_with_time_and_size() {
    let effects = generate_proof_finished(
        job(None),
        ProverEvent::Exited { success: true, elapsed_ms: 1234, proof_size: Some(4096) },
    );
    assert_eq!(
        effects,
        vec![Effect::Publish(Envelope::ProofComplete {
            proof_id: "id-1".to_string(),
            time_ms: 1234,
            proof_size: 4096,
            metadata: request("prove_kyc", None),
        })]
    );
}

#[test]
fn missing_artifact_counts_as_size_zero() {
    let effects = generate_proof_finished(
        job(None),
        ProverEvent::Exited { success: true, elapsed_ms: 1, proof_size: None },
    );
    match &effects[0] {
        Effect::Publish(Envelope::ProofComplete { proof_size, .. }) => assert_eq!(*proof_size, 0),
        other => panic!("no completion: {:?}", other),
    }
}

#[test]
fn failed_run_is_reported_without_its_output() {
    let effects = generate_proof_finished(
        job(Some("{\"is_automated_transfer\": true}")),
        ProverEvent::Exited { success: false, elapsed_ms: 9, proof_size: Some(1) },
    );
    assert_eq!(
        effects,
        vec![Effect::Publish(Envelope::ProofError {
            proof_id: "id-1".to_string(),
            error: "Proof generation failed".to_string(),
        })]
    );
}

#[test]
fn spawn_failure_is_reported_with_its_reason() {
    let effects = generate_proof_finished(
        job(None),
        ProverEvent::SpawnFailed { reason: "No such file or directory (os error 2)".to_string() },
    );
    assert_eq!(
        effects,
        vec![Effect::Publish(Envelope::ProofError {
            proof_id: "id-1".to_string(),
            error: "Failed to start proof generation: No such file or directory (os error 2)"
                .to_string(),
        })]
    );
}

#[test]
fn directory_and_wait_failures_publish_nothing() {
    assert_eq!(generate_proof_prepared(job(None), false), vec![]);
    assert_eq!(generate_proof_finished(job(None), ProverEvent::WaitFailed), vec![]);
}

#[test]
fn request_is_written_before_the_prover_runs() {
    let context = "{\"is_automated_transfer\":true}";
    let effects = generate_proof_prepared(job(Some(context)), true);
    assert_eq!(effects.len(), 2);
    assert_eq!(
        effects[0],
        Effect::Record {
            path: "./proofs/id-1/metadata.json".to_string(),
            request: request("prove_kyc", Some(context)),
        }
    );
    assert_eq!(effects[1], Effect::Prove(job(Some(context))));
}

#[test]
fn generate_makes_ready_before_anything_runs() {
    let effects = generate_proof(&settings(), "id-1".to_string(), request("prove_kyc", None));
    assert_eq!(effects.len(), 2);
    assert!(matches!(&effects[1], Effect::Prepare(job) if job.layout.directory == "./proofs/id-1"));
}

#[test]
fn automated_success_starts_exactly_one_verification_of_the_same_proof() {
    let context = "{\"is_automated_transfer\": true, \"amount\": \"5\"}";
    let effects = generate_proof_finished(
        job(Some(context)),
        ProverEvent::Exited { success: true, elapsed_ms: 3, proof_size: Some(2) },
    );
    assert_eq!(effects.len(), 2);
    assert!(matches!(&effects[0], Effect::Publish(Envelope::ProofComplete { .. })));
    assert_eq!(
        effects[1],
        Effect::Start(Task::Verify {
            proof_id: "id-1".to_string(),
            request: request("prove_kyc", Some(context)),
        })
    );
}

#[test]
fn unautomated_success_starts_nothing() {
    for context in [None, Some("{\"is_automated_transfer\": false}"), Some("{\"is_automated_transfer\": \"yes\"}")] {
        let effects = generate_proof_finished(
            job(context),
            ProverEvent::Exited { success: true, elapsed_ms: 3, proof_size: Some(2) },
        );
        assert_eq!(effects.len(), 1);
    }
}

#[test]
fn prover_outcome_goes_by_the_flag_it_is_given() {
    let effects = prover_outcome(
        job(None),
        ProverEvent::Exited { success: true, elapsed_ms: 3, proof_size: Some(2) },
        true,
    );
    assert_eq!(effects.len(), 2);
    assert!(matches!(&effects[1], Effect::Start(Task::Verify { .. })));
    let effects = prover_outcome(job(None), ProverEvent::WaitFailed, true);
    assert!(effects.is_empty());
}

#[test]
fn generate_proof_with_takes_the_program_it_is_given() {
    let effects = generate_proof_with(
        &settings(),
        "id-2".to_string(),
        request("whatever", None),
        Some("x.wasm".to_string()),
    );
    match &effects[1] {
        Effect::Prepare(job) => assert_eq!(job.command.arguments[2], "./zkengine/example_wasms/x.wasm"),
        other => panic!("no prover job: {:?}", other),
    }
    let effects = generate_proof_with(&settings(), "id-2".to_string(), request("prove_kyc", None), None);
    assert_eq!(
        effects[1],
        Effect::Publish(Envelope::ProofError {
            proof_id: "id-2".to_string(),
            error: "Unknown proof function: prove_kyc".to_string(),
        })
    );
}
