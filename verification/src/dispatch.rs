//! The command dispatcher: from a client's message to the stage that serves
//! it.

use vstd::prelude::*;
use crate::effect::{effects, Effect, EffectView, Settings, SettingsView, Task, TaskView};
use crate::envelope::{Envelope, EnvelopeView};
use crate::json::{
    flag_of, json_member, json_well_formed, member, member_flag, member_text, optional_text,
    parses, text_in, text_of,
};
use crate::request::{ProofRequest, ProofRequestView};
use crate::text::same_text;

verus! {

/// The stage that serves an intent.
#[derive(Debug, Clone, Copy, PartialEq, Eq, Structural)]
pub enum Route {
    Verify,
    List,
    Generate,
}

/// What the intent collaborator answered.
#[derive(Debug, PartialEq, Eq)]
pub enum ChatReply {
    /// The call itself failed.
    Unreachable,
    /// The collaborator answered with `body`. `intent` is the `intent` member
    /// of that document, where it has one that reads as a proof request.
    Answered { body: String, intent: Option<ProofRequest> },
}

/// What a [`ChatReply`] says.
pub enum ChatReplyView {
    Unreachable,
    Answered { body: Seq<char>, intent: Option<ProofRequestView> },
}

/// What a request that may be absent says.
pub open spec fn optional_request(request: Option<ProofRequest>) -> Option<ProofRequestView> {
    match request {
        Some(r) => Some(r@),
        None => None,
    }
}

impl View for ChatReply {
    type V = ChatReplyView;

    open spec fn view(&self) -> ChatReplyView {
        match *self {
            ChatReply::Unreachable => ChatReplyView::Unreachable,
            ChatReply::Answered { body, intent } => ChatReplyView::Answered {
                body: body@,
                intent: optional_request(intent),
            },
        }
    }
}

/// The length of an identifier that the library makes up itself.
pub const FRESH_ID_LENGTH: usize = 36;

/// The stage for an intent, by priority: a request marked as a verification
/// is verified whatever its function; a listing is listed; everything else is
/// generated.
pub open spec fn route_of(function: Seq<char>, is_verification: bool) -> Route {
    if is_verification {
        Route::Verify
    } else if function == "list_proofs"@ {
        Route::List
    } else {
        Route::Generate
    }
}

/// The identifier of the proof that an intent is about: the one supplied,
/// unless it is absent or empty.
pub open spec fn chosen_id(supplied: Option<Seq<char>>, fresh: Seq<char>) -> Seq<char> {
    match supplied {
        Some(id) if id.len() > 0 => id,
        _ => fresh,
    }
}

/// The task that serves `request`.
pub open spec fn task_for(
    request: ProofRequestView,
    is_verification: bool,
    proof_id: Seq<char>,
) -> TaskView {
    match route_of(request.function, is_verification) {
        Route::Verify => TaskView::Verify { proof_id, request },
        Route::List => TaskView::List { request },
        Route::Generate => TaskView::Generate { proof_id, request },
    }
}

/// What a message from a client leads to: a call to the collaborator with the
/// message as it came, or, for a message that is no JSON document, nothing.
pub open spec fn command_plan(settings: SettingsView, message: Seq<char>) -> Seq<EffectView> {
    if json_well_formed(message) {
        seq![EffectView::Consult { url: settings.langchain_url + "/chat"@, body: message }]
    } else {
        seq![]
    }
}

/// What an answer of the collaborator leads to: the chat response for the
/// clients in any case and first, then the task for the intent, if there is
/// one.
pub open spec fn reply_plan(
    response: Option<Seq<char>>,
    metadata: Option<Seq<char>>,
    supplied_id: Option<Seq<char>>,
    intent: Option<ProofRequestView>,
    is_verification: bool,
    fresh_id: Seq<char>,
) -> Seq<EffectView> {
    let chat = EffectView::Publish(
        EnvelopeView::ChatResponse {
            response: match response {
                Some(text) => text,
                None => ""@,
            },
            metadata,
        },
    );
    match intent {
        Some(request) => seq![
            chat,
            EffectView::Start(
                task_for(request, is_verification, chosen_id(supplied_id, fresh_id)),
            ),
        ],
        None => seq![chat],
    }
}

/// The envelope that says that the collaborator could not be reached.
pub open spec fn unavailable() -> EffectView {
    EffectView::Publish(
        EnvelopeView::Error { response: "Error: The backend AI service is not available."@ },
    )
}

/// What the collaborator's answer `body`, with the intent read from it, leads
/// to when `fresh_id` is the identifier at hand for a proof without one.
pub open spec fn answer_plan(
    body: Seq<char>,
    intent: Option<ProofRequestView>,
    fresh_id: Seq<char>,
) -> Seq<EffectView> {
    let metadata = json_member(body, "metadata"@);
    reply_plan(
        member_text(Some(body), "response"@),
        metadata,
        member_text(metadata, "proof_id"@),
        intent,
        match intent {
            Some(request) => member_flag(request.additional_context, "is_verification"@),
            None => false,
        },
        fresh_id,
    )
}

/// Whatever the collaborator answered, the chat response goes out, and goes
/// out first; at most one task follows it.
pub proof fn lemma_chat_response_first(
    response: Option<Seq<char>>,
    metadata: Option<Seq<char>>,
    supplied_id: Option<Seq<char>>,
    intent: Option<ProofRequestView>,
    is_verification: bool,
    fresh_id: Seq<char>,
)
    ensures
        ({
            let plan = reply_plan(
                response,
                metadata,
                supplied_id,
                intent,
                is_verification,
                fresh_id,
            );
            &&& 1 <= plan.len() <= 2
            &&& plan[0] matches EffectView::Publish(EnvelopeView::ChatResponse { .. })
            &&& plan.len() == 2 <==> intent is Some
            &&& plan.len() == 2 ==> plan[1] is Start
        }),
{
}

/// Trusted: `uuid::Uuid::new_v4`, printed as text. The identifier is random;
/// the contract claims only its length, that of the hyphenated form.
#[verifier::external_body]
fn fresh_identifier() -> (id: String)
    ensures
        id@.len() == FRESH_ID_LENGTH,
{
    uuid::Uuid::new_v4().to_string()
}

/// The stage for an intent.
pub fn classify(request: &ProofRequest, is_verification: bool) -> (route: Route)
    ensures
        route == route_of(request@.function, is_verification),
{
    if is_verification {
        Route::Verify
    } else if same_text(request.function.as_str(), "list_proofs") {
        Route::List
    } else {
        Route::Generate
    }
}

/// The identifier of the proof that an intent is about.
pub fn resolve_proof_id(supplied: Option<String>, fresh: String) -> (id: String)
    ensures
        id@ == chosen_id(optional_text(supplied), fresh@),
{
    match supplied {
        Some(id) => {
            if id.as_str().unicode_len() > 0 {
                id
            } else {
                fresh
            }
        },
        None => fresh,
    }
}

/// Takes a message from a client.
///
/// A message that is no JSON document is dropped: no effect follows, so
/// nothing is published and nothing is run. Every other message goes to the
/// intent collaborator unchanged.
pub fn process_user_command(settings: &Settings, message: String) -> (out: Vec<Effect>)
    ensures
        effects(out@) == command_plan(settings@, message@),
        !json_well_formed(message@) ==> out@.len() == 0,
{
    let ghost said = message@;
    let mut out: Vec<Effect> = Vec::new();
    if parses(message.as_str()) {
        let url: String = settings.langchain_url.clone().concat("/chat");
        out.push(Effect::Consult { url, body: message });
    }
    assert(effects(out@) =~= command_plan(settings@, said));
    out
}

/// The effects of an answer whose members have been read: `response`,
/// `metadata` and the proof identifier supplied in it, the intent and whether
/// it is marked as a verification; `fresh_id` stands in for an identifier that
/// was not supplied.
pub fn reply_effects(
    response: Option<String>,
    metadata: Option<String>,
    supplied_id: Option<String>,
    intent: Option<ProofRequest>,
    is_verification: bool,
    fresh_id: String,
) -> (out: Vec<Effect>)
    ensures
        effects(out@) == reply_plan(
            optional_text(response),
            optional_text(metadata),
            optional_text(supplied_id),
            optional_request(intent),
            is_verification,
            fresh_id@,
        ),
{
    let ghost plan = reply_plan(
        optional_text(response),
        optional_text(metadata),
        optional_text(supplied_id),
        optional_request(intent),
        is_verification,
        fresh_id@,
    );
    let mut out: Vec<Effect> = Vec::new();
    let text: String = match response {
        Some(text) => text,
        None => String::from_str(""),
    };
    out.push(Effect::Publish(Envelope::ChatResponse { response: text, metadata }));
    match intent {
        Some(request) => {
            let proof_id: String = resolve_proof_id(supplied_id, fresh_id);
            let task: Task = match classify(&request, is_verification) {
                Route::Verify => Task::Verify { proof_id, request },
                Route::List => Task::List { request },
                Route::Generate => Task::Generate { proof_id, request },
            };
            out.push(Effect::Start(task));
        },
        None => {},
    }
    assert(effects(out@) =~= plan);
    out
}

/// Takes the collaborator's answer to a client's message.
///
/// A collaborator that could not be reached is reported to the clients, once.
/// An answer that is no JSON document leads to nothing. Every other answer is
/// passed on as a chat response, and its intent, if it has one, starts the
/// stage that [`classify`] picks, for the proof that the answer's metadata
/// names or, failing that, for a fresh one.
pub fn conclude_user_command(reply: ChatReply) -> (out: Vec<Effect>)
    ensures
        (match reply@ {
            ChatReplyView::Unreachable => effects(out@) == seq![unavailable()],
            ChatReplyView::Answered { body, intent } => if json_well_formed(body) {
                exists|fresh: Seq<char>|
                    fresh.len() == FRESH_ID_LENGTH && effects(out@) == #[trigger] answer_plan(
                        body,
                        intent,
                        fresh,
                    )
            } else {
                out@.len() == 0
            },
        }),
{
    match reply {
        ChatReply::Unreachable => {
            let mut out: Vec<Effect> = Vec::new();
            out.push(
                Effect::Publish(
                    Envelope::Error {
                        response: String::from_str(
                            "Error: The backend AI service is not available.",
                        ),
                    },
                ),
            );
            assert(effects(out@) =~= seq![unavailable()]);
            out
        },
        ChatReply::Answered { body, intent } => {
            if !parses(body.as_str()) {
                return Vec::new();
            }
            let response: Option<String> = text_in(body.as_str(), "response");
            let metadata: Option<String> = member(body.as_str(), "metadata");
            let supplied_id: Option<String> = text_of(&metadata, "proof_id");
            let is_verification: bool = match &intent {
                Some(request) => flag_of(&request.additional_context, "is_verification"),
                None => false,
            };
            let fresh_id: String = fresh_identifier();
            let ghost fresh = fresh_id@;
            let out: Vec<Effect> = reply_effects(
                response,
                metadata,
                supplied_id,
                intent,
                is_verification,
                fresh_id,
            );
            assert(effects(out@) == answer_plan(body@, optional_request(intent), fresh));
            out
        },
    }
}

} // verus!
