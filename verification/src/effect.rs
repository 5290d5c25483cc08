//! What a stage asks of its driver.
//!
//! A stage function returns a list of [`Effect`]s. The driver performs them in
//! order. An effect that runs a process or calls a collaborator names, in its
//! documentation, the stage function that takes the outcome.

use vstd::prelude::*;
use crate::envelope::{Envelope, EnvelopeView};
use crate::request::{texts, ProofRequest, ProofRequestView};
use crate::text::{join_path, joined};

verus! {

/// Where the collaborators, the proving engine and the proofs are found.
#[derive(Debug, PartialEq, Eq)]
pub struct Settings {
    pub langchain_url: String,
    pub zkengine_binary: String,
    pub proofs_dir: String,
    pub wasm_dir: String,
}

/// What a [`Settings`] says.
pub struct SettingsView {
    pub langchain_url: Seq<char>,
    pub zkengine_binary: Seq<char>,
    pub proofs_dir: Seq<char>,
    pub wasm_dir: Seq<char>,
}

impl View for Settings {
    type V = SettingsView;

    open spec fn view(&self) -> SettingsView {
        SettingsView {
            langchain_url: self.langchain_url@,
            zkengine_binary: self.zkengine_binary@,
            proofs_dir: self.proofs_dir@,
            wasm_dir: self.wasm_dir@,
        }
    }
}

/// The files of one proof.
#[derive(Debug, PartialEq, Eq)]
pub struct ProofLayout {
    pub directory: String,
    pub metadata: String,
    pub proof: String,
    pub public_inputs: String,
    pub marker: String,
}

/// What a [`ProofLayout`] says.
pub struct ProofLayoutView {
    pub directory: Seq<char>,
    pub metadata: Seq<char>,
    pub proof: Seq<char>,
    pub public_inputs: Seq<char>,
    pub marker: Seq<char>,
}

impl View for ProofLayout {
    type V = ProofLayoutView;

    open spec fn view(&self) -> ProofLayoutView {
        ProofLayoutView {
            directory: self.directory@,
            metadata: self.metadata@,
            proof: self.proof@,
            public_inputs: self.public_inputs@,
            marker: self.marker@,
        }
    }
}

/// The files of the proof `proof_id` under `proofs_dir`: its directory, and in
/// it the request as it was made, the engine's two artifacts, and the marker
/// whose presence says that the proof was verified.
pub open spec fn layout_of(proofs_dir: Seq<char>, proof_id: Seq<char>) -> ProofLayoutView {
    let directory = joined(proofs_dir, proof_id);
    ProofLayoutView {
        directory,
        metadata: joined(directory, "metadata.json"@),
        proof: joined(directory, "proof.bin"@),
        public_inputs: joined(directory, "public.json"@),
        marker: joined(directory, ".verified"@),
    }
}

impl Settings {
    /// The settings, each taken from its override where there is one.
    pub fn resolve(
        langchain_url: Option<String>,
        zkengine_binary: Option<String>,
        proofs_dir: Option<String>,
        wasm_dir: Option<String>,
    ) -> (settings: Settings)
        ensures
            settings@.langchain_url == (match langchain_url {
                Some(v) => v@,
                None => "http://localhost:8002"@,
            }),
            settings@.zkengine_binary == (match zkengine_binary {
                Some(v) => v@,
                None => "./zkengine/zkEngine"@,
            }),
            settings@.proofs_dir == (match proofs_dir {
                Some(v) => v@,
                None => "./proofs"@,
            }),
            settings@.wasm_dir == (match wasm_dir {
                Some(v) => v@,
                None => "./zkengine/example_wasms"@,
            }),
    {
        Settings {
            langchain_url: match langchain_url {
                Some(v) => v,
                None => String::from_str("http://localhost:8002"),
            },
            zkengine_binary: match zkengine_binary {
                Some(v) => v,
                None => String::from_str("./zkengine/zkEngine"),
            },
            proofs_dir: match proofs_dir {
                Some(v) => v,
                None => String::from_str("./proofs"),
            },
            wasm_dir: match wasm_dir {
                Some(v) => v,
                None => String::from_str("./zkengine/example_wasms"),
            },
        }
    }

    /// The files of the proof `proof_id`.
    pub fn layout(&self, proof_id: &str) -> (layout: ProofLayout)
        ensures
            layout@ == layout_of(self@.proofs_dir, proof_id@),
    {
        let directory: String = join_path(self.proofs_dir.as_str(), proof_id);
        let metadata: String = join_path(directory.as_str(), "metadata.json");
        let proof: String = join_path(directory.as_str(), "proof.bin");
        let public_inputs: String = join_path(directory.as_str(), "public.json");
        let marker: String = join_path(directory.as_str(), ".verified");
        ProofLayout { directory, metadata, proof, public_inputs, marker }
    }
}

/// A process to run: the program and its arguments, in order.
#[derive(Debug, PartialEq, Eq)]
pub struct Command {
    pub program: String,
    pub arguments: Vec<String>,
}

/// What a [`Command`] says.
pub struct CommandView {
    pub program: Seq<char>,
    pub arguments: Seq<Seq<char>>,
}

impl View for Command {
    type V = CommandView;

    open spec fn view(&self) -> CommandView {
        CommandView { program: self.program@, arguments: texts(self.arguments@) }
    }
}

/// A unit of work to schedule on its own; whoever schedules it does not wait
/// for it.
#[derive(Debug, PartialEq, Eq)]
pub enum Task {
    Generate { proof_id: String, request: ProofRequest },
    Verify { proof_id: String, request: ProofRequest },
    Transfer { proof_id: String, context: String },
    List { request: ProofRequest },
}

/// What a [`Task`] says.
pub enum TaskView {
    Generate { proof_id: Seq<char>, request: ProofRequestView },
    Verify { proof_id: Seq<char>, request: ProofRequestView },
    Transfer { proof_id: Seq<char>, context: Seq<char> },
    List { request: ProofRequestView },
}

impl View for Task {
    type V = TaskView;

    open spec fn view(&self) -> TaskView {
        match *self {
            Task::Generate { proof_id, request } => TaskView::Generate {
                proof_id: proof_id@,
                request: request@,
            },
            Task::Verify { proof_id, request } => TaskView::Verify {
                proof_id: proof_id@,
                request: request@,
            },
            Task::Transfer { proof_id, context } => TaskView::Transfer {
                proof_id: proof_id@,
                context: context@,
            },
            Task::List { request } => TaskView::List { request: request@ },
        }
    }
}

/// A run of the prover, with what the stage needs to know again at each of
/// its steps.
#[derive(Debug, PartialEq, Eq)]
pub struct ProverJob {
    pub proof_id: String,
    pub request: ProofRequest,
    pub layout: ProofLayout,
    pub command: Command,
}

/// What a [`ProverJob`] says.
pub struct ProverJobView {
    pub proof_id: Seq<char>,
    pub request: ProofRequestView,
    pub layout: ProofLayoutView,
    pub command: CommandView,
}

impl View for ProverJob {
    type V = ProverJobView;

    open spec fn view(&self) -> ProverJobView {
        ProverJobView {
            proof_id: self.proof_id@,
            request: self.request@,
            layout: self.layout@,
            command: self.command@,
        }
    }
}

/// A run of the verifier, with what the stage needs to know again at each of
/// its steps.
#[derive(Debug, PartialEq, Eq)]
pub struct VerifierJob {
    pub proof_id: String,
    pub request: ProofRequest,
    pub layout: ProofLayout,
    pub command: Command,
}

/// What a [`VerifierJob`] says.
pub struct VerifierJobView {
    pub proof_id: Seq<char>,
    pub request: ProofRequestView,
    pub layout: ProofLayoutView,
    pub command: CommandView,
}

impl View for VerifierJob {
    type V = VerifierJobView;

    open spec fn view(&self) -> VerifierJobView {
        VerifierJobView {
            proof_id: self.proof_id@,
            request: self.request@,
            layout: self.layout@,
            command: self.command@,
        }
    }
}

/// One thing for the driver to do.
#[derive(Debug, PartialEq, Eq)]
pub enum Effect {
    /// Hand the envelope to the hub, for every subscriber.
    Publish(Envelope),
    /// Post `body` to the intent collaborator at `url`; the answer goes to
    /// `dispatch::conclude_user_command`.
    Consult { url: String, body: String },
    /// Create the directory of the job's layout, with its parents; whether it
    /// is there goes to `generate::generate_proof_prepared`.
    Prepare(ProverJob),
    /// Write the request at `path`; a failure is of no consequence.
    Record { path: String, request: ProofRequest },
    /// Run the job's command and time it; what happened goes to
    /// `generate::generate_proof_finished`.
    Prove(ProverJob),
    /// Look for the two artifacts of the job's layout; what is there goes to
    /// `verify::verify_proof_inspected`.
    Inspect(VerifierJob),
    /// Run the job's command; what happened goes to
    /// `verify::verify_proof_finished`.
    Check(VerifierJob),
    /// Write an empty file at `path`; a failure is of no consequence.
    Mark { path: String },
    /// Post `body` to the transfer collaborator at `url`; the answer goes to
    /// `transfer::execute_transfer_finished`.
    Remit { proof_id: String, url: String, body: String },
    /// Schedule the task and go on without waiting for it.
    Start(Task),
}

/// What an [`Effect`] says.
pub enum EffectView {
    Publish(EnvelopeView),
    Consult { url: Seq<char>, body: Seq<char> },
    Prepare(ProverJobView),
    Record { path: Seq<char>, request: ProofRequestView },
    Prove(ProverJobView),
    Inspect(VerifierJobView),
    Check(VerifierJobView),
    Mark { path: Seq<char> },
    Remit { proof_id: Seq<char>, url: Seq<char>, body: Seq<char> },
    Start(TaskView),
}

impl View for Effect {
    type V = EffectView;

    open spec fn view(&self) -> EffectView {
        match *self {
            Effect::Publish(envelope) => EffectView::Publish(envelope@),
            Effect::Consult { url, body } => EffectView::Consult { url: url@, body: body@ },
            Effect::Prepare(job) => EffectView::Prepare(job@),
            Effect::Record { path, request } => EffectView::Record {
                path: path@,
                request: request@,
            },
            Effect::Prove(job) => EffectView::Prove(job@),
            Effect::Inspect(job) => EffectView::Inspect(job@),
            Effect::Check(job) => EffectView::Check(job@),
            Effect::Mark { path } => EffectView::Mark { path: path@ },
            Effect::Remit { proof_id, url, body } => EffectView::Remit {
                proof_id: proof_id@,
                url: url@,
                body: body@,
            },
            Effect::Start(task) => EffectView::Start(task@),
        }
    }
}

/// What each effect of a list says.
pub open spec fn effects(list: Seq<Effect>) -> Seq<EffectView> {
    list.map_values(|e: Effect| e@)
}

impl EffectView {
    /// Whether the effect starts a process.
    pub open spec fn runs_process(self) -> bool {
        self is Prove || self is Check
    }
}

} // verus!
