use proof_pipeline::effect::Effect;
use proof_pipeline::envelope::{Envelope, ProofEntry};
use proof_pipeline::registry::{
    describe, describe_with, function_from, infer_function_from_filename, list_proofs,
    read_function, select_listing, DirectoryEntry, LISTING_LIMIT,
};
use proof_pipeline::request::ProofRequest;

fn listing_request(list_type: Option<&str>) -> ProofRequest {
    ProofRequest {
        function: "list_proofs".to_string(),
        arguments: list_type.iter().map(|t| t.to_string()).collect(),
        step_size: 0,
        explanation: String::new(),
        additional_context: None,
    }
}

fn child(name: &str, created: u64, verified: bool) -> DirectoryEntry {
    DirectoryEntry {
        name: name.to_string(),
        has_proof: true,
        created: Some(created),
        verified,
        metadata: None,
    }
}

fn entry(proof_id: &str, timestamp: u64, verified: bool) -> ProofEntry {
    ProofEntry {
        proof_id: proof_id.to_string(),
        timestamp,
        verified,
        function: "unknown".to_string(),
    }
}

fn listed(request: &ProofRequest, directory: &Vec<DirectoryEntry>) -> (String, Vec<ProofEntry>) {
    let mut effects = list_proofs(request, directory);
    assert_eq!(effects.len(), 1);
    match effects.pop() {
        Some(Effect::Publish(Envelope::ListResponse { list_type, proofs })) => (list_type, proofs),
        other => panic!("no listing: {:?}", other),
    }
}

fn ids(proofs: &Vec<ProofEntry>) -> Vec<&str> {
    proofs.iter().map(|p| p.proof_id.as_str()).collect()
}

#[test]
fn function_is_inferred_from_the_first_hint_that_matches() {
    assert_eq!(infer_function_from_filename("proof_kyc_123"), "prove_kyc");
    assert_eq!(infer_function_from_filename("proof_location_1"), "prove_location");
    assert_eq!(infer_function_from_filename("proof_ai_1"), "prove_ai_content");
    assert_eq!(infer_function_from_filename("proof_custom_1"), "prove_custom");
    assert_eq!(infer_function_from_filename("proof_123"), "unknown");
    assert_eq!(infer_function_from_filename(""), "unknown");
}

#[test]
fn earlier_hints_win_over_later_ones() {
    assert_eq!(infer_function_from_filename("custom_ai_location_kyc"), "prove_kyc");
    assert_eq!(infer_function_from_filename("custom_ai_location"), "prove_location");
    assert_eq!(infer_function_from_filename("custom_ai"), "prove_ai_content");
    assert_eq!(infer_function_from_filename("proof_mountain"), "prove_ai_content");
    assert_eq!(infer_function_from_filename("KYC"), "unknown");
}

#[test]
fn function_comes_from_the_metadata_where_it_was_read() {
    assert_eq!(function_from("proof_kyc", Some(Some("prove_location".to_string()))), "prove_location");
    assert_eq!(function_from("proof_kyc", Some(None)), "unknown");
    assert_eq!(function_from("proof_kyc", None), "prove_kyc");
}

#[test]
fn only_proof_directories_with_an_artifact_are_proofs() {
    assert!(describe(&child("proof_a", 1, false)).is_some());
    assert!(describe(&child("prooF_a", 1, false)).is_none());
    assert!(describe(&child("a_proof_", 1, false)).is_none());
    assert!(describe(&child("proof", 1, false)).is_none());
    let mut empty = child("proof_a", 1, true);
    empty.has_proof = false;
    assert!(describe(&empty).is_none());
}

#[test]
fn entry_tells_name_time_mark_and_function() {
    let mut c = child("proof_kyc_1", 1700000000, true);
    c.metadata = Some("{\"function\": \"prove_location\", \"step_size\": 5}".to_string());
    assert_eq!(
        describe(&c),
        Some(ProofEntry {
            proof_id: "proof_kyc_1".to_string(),
            timestamp: 1700000000,
            verified: true,
            function: "prove_location".to_string(),
        })
    );
}

#[test]
fn unknown_creation_time_counts_as_zero() {
    let mut c = child("proof_x", 5, false);
    c.created = None;
    assert_eq!(describe(&c).unwrap().timestamp, 0);
}

#[test]
fn well_formed_metadata_without_a_function_says_unknown() {
    for metadata in ["{}", "{\"function\": 3}", "[]", "\"prove_kyc\""] {
        let mut c = child("proof_kyc_1", 1, false);
        c.metadata = Some(metadata.to_string());
        assert_eq!(describe(&c).unwrap().function, "unknown");
    }
}

#[test]
fn malformed_or_missing_metadata_falls_back_on_the_name() {
    for metadata in [None, Some("{\"function\": "), Some("")] {
        let mut c = child("proof_kyc_1", 1, false);
        c.metadata = metadata.map(|m| m.to_string());
        assert_eq!(describe(&c).unwrap().function, "prove_kyc");
    }
}

#[test]
fn listing_of_verifications_leaves_unverified_proofs_out() {
    let directory = vec![
        child("proof_a", 4, false),
        child("proof_b", 3, true),
        child("proof_c", 2, false),
        child("proof_d", 1, true),
    ];
    let (list_type, proofs) = listed(&listing_request(Some("verifications")), &directory);
    assert_eq!(list_type, "verifications");
    assert_eq!(ids(&proofs), vec!["proof_b", "proof_d"]);
    assert!(proofs.iter().all(|p| p.verified));
}

#[test]
fn listing_of_verifications_can_be_empty() {
    let directory = vec![child("proof_a", 4, false), child("other", 9, true)];
    let (_, proofs) = listed(&listing_request(Some("verifications")), &directory);
    assert!(proofs.is_empty());
}

#[test]
fn listing_defaults_to_all_proofs() {
    let directory = vec![child("proof_a", 1, false), child("proof_b", 2, true), child("junk", 3, true)];
    let (list_type, proofs) = listed(&listing_request(None), &directory);
    assert_eq!(list_type, "proofs");
    assert_eq!(ids(&proofs), vec!["proof_b", "proof_a"]);
    let (list_type, proofs) = listed(&listing_request(Some("whatever")), &directory);
    assert_eq!(list_type, "whatever");
    assert_eq!(proofs.len(), 2);
}

#[test]
fn listing_of_an_empty_directory_is_empty() {
    let (_, proofs) = listed(&listing_request(None), &vec![]);
    assert!(proofs.is_empty());
}

#[test]
fn listing_is_newest_first_and_capped_for_any_number_of_proofs() {
    for n in [0u64, 1, 19, 20, 21, 25, 60] {
        let directory: Vec<DirectoryEntry> = (0..n)
            .map(|i| child(&format!("proof_{}", i), (i * 7919) % 101, i % 2 == 0))
            .collect();
        let (_, proofs) = listed(&listing_request(None), &directory);
        assert_eq!(proofs.len() as u64, n.min(LISTING_LIMIT as u64));
        assert!(proofs.windows(2).all(|w| w[0].timestamp >= w[1].timestamp));
        let mut times: Vec<u64> = directory.iter().map(|c| c.created.unwrap()).collect();
        times.sort_by(|a, b| b.cmp(a));
        times.truncate(LISTING_LIMIT);
        assert_eq!(proofs.iter().map(|p| p.timestamp).collect::<Vec<u64>>(), times);
    }
}

#[test]
fn listing_keeps_the_twenty_newest_of_twenty_five() {
    let directory: Vec<DirectoryEntry> =
        (1..=25u64).map(|i| child(&format!("proof_{}", i), i, false)).collect();
    let (_, proofs) = listed(&listing_request(None), &directory);
    let expected: Vec<String> = (6..=25u64).rev().map(|i| format!("proof_{}", i)).collect();
    assert_eq!(ids(&proofs), expected);
}

#[test]
fn proofs_of_the_same_time_keep_their_order() {
    let list = vec![
        entry("a", 5, false),
        entry("b", 9, false),
        entry("c", 5, false),
        entry("d", 9, false),
        entry("e", 5, false),
        entry("f", 1, false),
    ];
    let chosen = select_listing(&list, "proofs");
    assert_eq!(ids(&chosen), vec!["b", "d", "a", "c", "e", "f"]);
}

#[test]
fn selection_agrees_with_a_stable_sort() {
    let list: Vec<ProofEntry> =
        (0..40u64).map(|i| entry(&format!("p{}", i), (i * 31) % 7, i % 3 == 0)).collect();
    for list_type in ["proofs", "verifications"] {
        let mut expected: Vec<&ProofEntry> =
            list.iter().filter(|e| list_type != "verifications" || e.verified).collect();
        expected.sort_by(|a, b| b.timestamp.cmp(&a.timestamp));
        expected.truncate(LISTING_LIMIT);
        let chosen = select_listing(&list, list_type);
        assert_eq!(chosen.iter().collect::<Vec<&ProofEntry>>(), expected);
    }
}

#[test]
fn metadata_is_read_for_its_function_member() {
    assert_eq!(read_function(&None), None);
    assert_eq!(read_function(&Some("{".to_string())), None);
    assert_eq!(read_function(&Some("{}".to_string())), Some(None));
    assert_eq!(
        read_function(&Some("{\"function\":\"prove_kyc\"}".to_string())),
        Some(Some("prove_kyc".to_string()))
    );
}

#[test]
fn entry_goes_by_the_reading_it_is_given() {
    let c = child("proof_location_2", 8, false);
    assert_eq!(describe_with(&c, None).unwrap().function, "prove_location");
    assert_eq!(describe_with(&c, Some(None)).unwrap().function, "unknown");
    assert_eq!(describe_with(&c, Some(Some("x".to_string()))).unwrap().function, "x");
    assert!(describe_with(&child("notes", 8, false), Some(Some("x".to_string()))).is_none());
}
