use proof_pipeline::effect::{Effect, Settings};
use proof_pipeline::envelope::Envelope;
use proof_pipeline::transfer::{
    execute_transfer, execute_transfer_finished, transfer_outcome, TransferReply,
};

fn answered(body: &str) -> Vec<Effect> {
    execute_transfer_finished("pf-1".to_string(), TransferReply::Answered { body: body.to_string() })
}

fn error(words: &str) -> Vec<Effect> {
    vec![Effect::Publish(Envelope::TransferError {
        proof_id: "pf-1".to_string(),
        error: words.to_string(),
    })]
}

#[test]
fn transfer_announces_itself_and_posts_the_context_as_it_is() {
    let settings = Settings::resolve(Some("http://svc".to_string()), None, None, None);
    let context = "{\"amount\": 5,  \"to\": \"x\"}";
    let effects = execute_transfer(&settings, "pf-1".to_string(), context.to_string());
    assert_eq!(
        effects,
        vec![
            Effect::Publish(Envelope::TransferStatus { proof_id: "pf-1".to_string() }),
            Effect::Remit {
                proof_id: "pf-1".to_string(),
                url: "http://svc/execute_verified_transfer".to_string(),
                body: context.to_string(),
            },
        ]
    );
}

#[test]
fn successful_transfer_carries_the_whole_answer() {
    let body = "{\"success\": true, \"tx\": \"0xfeed\"}";
    assert_eq!(
        answered(body),
        vec![Effect::Publish(Envelope::TransferComplete {
            proof_id: "pf-1".to_string(),
            result: body.to_string(),
        })]
    );
}

#[test]
fn failed_transfer_speaks_in_the_collaborators_words() {
    assert_eq!(answered("{\"success\": false, \"detail\": \"insufficient funds\"}"), error("insufficient funds"));
    assert_eq!(answered("{\"detail\": \"no success member\"}"), error("no success member"));
}

#[test]
fn failed_transfer_without_words_gets_the_fallback() {
    assert_eq!(answered("{\"success\": false}"), error("Transfer failed"));
    assert_eq!(answered("{\"success\": \"true\"}"), error("Transfer failed"));
    assert_eq!(answered("{\"success\": false, \"detail\": 404}"), error("Transfer failed"));
    assert_eq!(answered("{}"), error("Transfer failed"));
}

#[test]
fn malformed_answer_is_a_failed_transfer() {
    assert_eq!(answered("<html>502</html>"), error("Transfer failed"));
    assert_eq!(answered(""), error("Transfer failed"));
    assert_eq!(answered("[1, 2]"), error("Transfer failed"));
}

#[test]
fn unreachable_collaborator_is_reported_with_the_cause() {
    let effects = execute_transfer_finished(
        "pf-1".to_string(),
        TransferReply::Unreachable { reason: "connection refused".to_string() },
    );
    assert_eq!(effects, error("Failed to execute transfer: connection refused"));
}

#[test]
fn transfer_outcome_goes_by_what_it_is_given() {
    let reply = || TransferReply::Answered { body: "whatever".to_string() };
    assert_eq!(
        transfer_outcome("pf-1".to_string(), reply(), true, Some("ignored".to_string())),
        vec![Effect::Publish(Envelope::TransferComplete {
            proof_id: "pf-1".to_string(),
            result: "whatever".to_string(),
        })]
    );
    assert_eq!(transfer_outcome("pf-1".to_string(), reply(), false, None), error("Transfer failed"));
    assert_eq!(
        transfer_outcome(
            "pf-1".to_string(),
            TransferReply::Unreachable { reason: "r".to_string() },
            true,
            Some("d".to_string())
        ),
        error("Failed to execute transfer: r")
    );
}
