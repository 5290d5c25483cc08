//! The proof registry: the list of known proofs, rebuilt from what is on disk
//! each time it is asked for.

use vstd::prelude::*;
use vstd::seq_lib::{to_multiset_build, to_multiset_insert};
use crate::effect::{effects, Effect, EffectView};
use crate::envelope::{entries, Envelope, EnvelopeView, ProofEntry, ProofEntryView};
use crate::json::{json_well_formed, member_text, optional_text, parses, text_in};
use crate::request::{ProofRequest, ProofRequestView};
use crate::text::{contains, has_prefix, has_substring, same_text, starts_with};

verus! {

/// A listing never holds more entries than this.
pub const LISTING_LIMIT: usize = 20;

/// One child of the proofs directory, as the driver found it.
#[derive(Debug, PartialEq, Eq)]
pub struct DirectoryEntry {
    /// The child's name.
    pub name: String,
    /// Whether it holds a proof artifact.
    pub has_proof: bool,
    /// When it was created, in seconds since the epoch, where that is known.
    pub created: Option<u64>,
    /// Whether it holds the marker of a verified proof.
    pub verified: bool,
    /// What its metadata file holds, where there is one that can be read.
    pub metadata: Option<String>,
}

/// What a [`DirectoryEntry`] says.
pub struct DirectoryEntryView {
    pub name: Seq<char>,
    pub has_proof: bool,
    pub created: Option<u64>,
    pub verified: bool,
    pub metadata: Option<Seq<char>>,
}

impl View for DirectoryEntry {
    type V = DirectoryEntryView;

    open spec fn view(&self) -> DirectoryEntryView {
        DirectoryEntryView {
            name: self.name@,
            has_proof: self.has_proof,
            created: self.created,
            verified: self.verified,
            metadata: optional_text(self.metadata),
        }
    }
}

/// What each child of a directory says.
pub open spec fn children(list: Seq<DirectoryEntry>) -> Seq<DirectoryEntryView> {
    list.map_values(|e: DirectoryEntry| e@)
}

impl Clone for ProofEntry {
    fn clone(&self) -> (copy: Self)
        ensures
            copy@ == self@,
    {
        ProofEntry {
            proof_id: self.proof_id.clone(),
            timestamp: self.timestamp,
            verified: self.verified,
            function: self.function.clone(),
        }
    }
}

/// The function that a directory's name hints at: the first of `kyc`,
/// `location`, `ai` and `custom` that stands in it decides.
pub open spec fn inferred_function(name: Seq<char>) -> Seq<char> {
    if has_substring(name, "kyc"@) {
        "prove_kyc"@
    } else if has_substring(name, "location"@) {
        "prove_location"@
    } else if has_substring(name, "ai"@) {
        "prove_ai_content"@
    } else if has_substring(name, "custom"@) {
        "prove_custom"@
    } else {
        "unknown"@
    }
}

/// The function of a proof, given what was read from its metadata: `None`
/// where there is no well-formed metadata, and otherwise the function that
/// the metadata names, if it names one.
pub open spec fn function_of(name: Seq<char>, reading: Option<Option<Seq<char>>>) -> Seq<char> {
    match reading {
        Some(Some(function)) => function,
        Some(None) => "unknown"@,
        None => inferred_function(name),
    }
}

/// What is read from a metadata file.
pub open spec fn reading_of(metadata: Option<Seq<char>>) -> Option<Option<Seq<char>>> {
    match metadata {
        Some(text) if json_well_formed(text) => Some(member_text(Some(text), "function"@)),
        _ => None,
    }
}

/// Whether a child of the proofs directory is a proof: it is named like one
/// and holds the proof artifact.
pub open spec fn is_candidate(child: DirectoryEntryView) -> bool {
    has_prefix(child.name, "proof_"@) && child.has_proof
}

/// The listing entry for a child that is a proof, given what was read from
/// its metadata.
pub open spec fn described_with(
    child: DirectoryEntryView,
    reading: Option<Option<Seq<char>>>,
) -> ProofEntryView {
    ProofEntryView {
        proof_id: child.name,
        timestamp: match child.created {
            Some(seconds) => seconds,
            None => 0,
        },
        verified: child.verified,
        function: function_of(child.name, reading),
    }
}

/// The listing entry for a child that is a proof.
pub open spec fn described(child: DirectoryEntryView) -> ProofEntryView {
    described_with(child, reading_of(child.metadata))
}

/// What was read, as characters.
pub open spec fn reading_text(reading: Option<Option<String>>) -> Option<Option<Seq<char>>> {
    match reading {
        Some(found) => Some(optional_text(found)),
        None => None,
    }
}

/// The entries for the children that are proofs, in the directory's order.
pub open spec fn candidates(directory: Seq<DirectoryEntryView>) -> Seq<ProofEntryView>
    decreases directory.len(),
{
    if directory.len() == 0 {
        Seq::empty()
    } else {
        let before = candidates(directory.drop_last());
        if is_candidate(directory.last()) {
            before.push(described(directory.last()))
        } else {
            before
        }
    }
}

/// The kind of listing that a request asks for: its first argument, or
/// `proofs`.
pub open spec fn list_type_of(request: ProofRequestView) -> Seq<char> {
    if request.arguments.len() > 0 {
        request.arguments[0]
    } else {
        "proofs"@
    }
}

/// Whether an entry belongs in a listing of the given kind: a listing of
/// verifications holds verified proofs only, every other holds all.
pub open spec fn wanted(entry: ProofEntryView, list_type: Seq<char>) -> bool {
    list_type != "verifications"@ || entry.verified
}

/// The entries that belong in a listing of the given kind, in their order.
pub open spec fn kept(list: Seq<ProofEntryView>, list_type: Seq<char>) -> Seq<ProofEntryView>
    decreases list.len(),
{
    if list.len() == 0 {
        Seq::empty()
    } else {
        let before = kept(list.drop_last(), list_type);
        if wanted(list.last(), list_type) {
            before.push(list.last())
        } else {
            before
        }
    }
}

/// No entry is newer than one before it.
pub open spec fn descending(list: Seq<ProofEntryView>) -> bool {
    forall|i: int, j: int| 0 <= i <= j < list.len() ==> list[i].timestamp >= list[j].timestamp
}

/// Where an entry of the given time goes into `sorted`: behind every entry
/// that is at least as new.
pub open spec fn place(sorted: Seq<ProofEntryView>, timestamp: u64) -> int
    decreases sorted.len(),
{
    if sorted.len() > 0 && sorted.last().timestamp < timestamp {
        place(sorted.drop_last(), timestamp)
    } else {
        sorted.len() as int
    }
}

/// The entries from the newest to the oldest. Entries of the same time keep
/// the order they came in: each entry, taken in turn, goes behind every entry
/// that is at least as new.
pub open spec fn newest_first(list: Seq<ProofEntryView>) -> Seq<ProofEntryView>
    decreases list.len(),
{
    if list.len() == 0 {
        Seq::empty()
    } else {
        let before = newest_first(list.drop_last());
        before.insert(place(before, list.last().timestamp), list.last())
    }
}

/// The listing of the given kind: of the entries that belong in it, the
/// newest, at most [`LISTING_LIMIT`] of them, newest first.
pub open spec fn selection(list: Seq<ProofEntryView>, list_type: Seq<char>) -> Seq<ProofEntryView> {
    let sorted = newest_first(kept(list, list_type));
    if sorted.len() > LISTING_LIMIT {
        sorted.subrange(0, LISTING_LIMIT as int)
    } else {
        sorted
    }
}

/// What a listing request leads to: one envelope with the listing.
pub open spec fn list_plan(
    request: ProofRequestView,
    directory: Seq<DirectoryEntryView>,
) -> Seq<EffectView> {
    let list_type = list_type_of(request);
    seq![
        EffectView::Publish(
            EnvelopeView::ListResponse {
                list_type,
                proofs: selection(candidates(directory), list_type),
            },
        ),
    ]
}

/// The place of a new entry is a position of the list; every entry from there
/// on is older than the new one, and the entry before it, if there is one, is
/// not.
pub proof fn lemma_place(sorted: Seq<ProofEntryView>, timestamp: u64)
    ensures
        0 <= place(sorted, timestamp) <= sorted.len(),
        forall|k: int|
            place(sorted, timestamp) <= k < sorted.len() ==> sorted[k].timestamp < timestamp,
        place(sorted, timestamp) > 0 ==> sorted[place(sorted, timestamp) - 1].timestamp
            >= timestamp,
    decreases sorted.len(),
{
    if sorted.len() > 0 && sorted.last().timestamp < timestamp {
        let shorter = sorted.drop_last();
        lemma_place(shorter, timestamp);
        assert forall|k: int| place(sorted, timestamp) <= k < sorted.len() implies sorted[k].timestamp
            < timestamp by {
            if k < shorter.len() {
                assert(shorter[k] == sorted[k]);
            }
        }
        if place(sorted, timestamp) > 0 {
            assert(shorter[place(sorted, timestamp) - 1] == sorted[place(sorted, timestamp) - 1]);
        }
    }
}

/// Putting an entry in its place keeps a descending list descending.
pub proof fn lemma_insert_descending(sorted: Seq<ProofEntryView>, entry: ProofEntryView)
    requires
        descending(sorted),
    ensures
        descending(sorted.insert(place(sorted, entry.timestamp), entry)),
{
    lemma_place(sorted, entry.timestamp);
    let p = place(sorted, entry.timestamp);
    let out = sorted.insert(p, entry);
    assert forall|i: int, j: int| 0 <= i <= j < out.len() implies out[i].timestamp
        >= out[j].timestamp by {
        if i < p && j == p {
            assert(sorted[i].timestamp >= sorted[p - 1].timestamp);
        } else if i < p && j > p {
            assert(sorted[i].timestamp >= sorted[j - 1].timestamp);
        } else if i == p && j > p {
            assert(sorted[j - 1].timestamp < entry.timestamp);
        } else if i > p {
            assert(sorted[i - 1].timestamp >= sorted[j - 1].timestamp);
        }
    }
}

/// Sorting leaves no entry newer than one before it.
pub proof fn lemma_newest_first_descending(list: Seq<ProofEntryView>)
    ensures
        descending(newest_first(list)),
    decreases list.len(),
{
    if list.len() > 0 {
        lemma_newest_first_descending(list.drop_last());
        lemma_insert_descending(newest_first(list.drop_last()), list.last());
    }
}

/// Sorting neither drops nor adds nor changes an entry.
pub proof fn lemma_newest_first_permutes(list: Seq<ProofEntryView>)
    ensures
        newest_first(list).to_multiset() == list.to_multiset(),
        newest_first(list).len() == list.len(),
    decreases list.len(),
{
    if list.len() > 0 {
        let before = newest_first(list.drop_last());
        lemma_newest_first_permutes(list.drop_last());
        lemma_place(before, list.last().timestamp);
        to_multiset_insert(before, place(before, list.last().timestamp), list.last());
        to_multiset_build(list.drop_last(), list.last());
        assert(list.drop_last().push(list.last()) =~= list);
    } else {
        assert(newest_first(list) =~= list);
    }
}

/// What holds of every entry of a list holds of every entry of the sorted
/// list.
pub proof fn lemma_newest_first_keeps(
    list: Seq<ProofEntryView>,
    holds: spec_fn(ProofEntryView) -> bool,
)
    requires
        forall|i: int| 0 <= i < list.len() ==> holds(#[trigger] list[i]),
    ensures
        forall|i: int|
            0 <= i < newest_first(list).len() ==> holds(#[trigger] newest_first(list)[i]),
    decreases list.len(),
{
    if list.len() > 0 {
        let before = newest_first(list.drop_last());
        assert forall|i: int| 0 <= i < list.drop_last().len() implies holds(
            #[trigger] list.drop_last()[i],
        ) by {
            assert(list.drop_last()[i] == list[i]);
        }
        lemma_newest_first_keeps(list.drop_last(), holds);
        lemma_place(before, list.last().timestamp);
        let p = place(before, list.last().timestamp);
        assert forall|i: int| 0 <= i < newest_first(list).len() implies holds(
            #[trigger] newest_first(list)[i],
        ) by {
            if i < p {
                assert(newest_first(list)[i] == before[i]);
            } else if i == p {
                assert(newest_first(list)[i] == list[list.len() - 1]);
            } else {
                assert(newest_first(list)[i] == before[i - 1]);
            }
        }
    }
}

/// Every entry kept for a listing belongs in it, and no more are kept than
/// there were.
pub proof fn lemma_kept_wanted(list: Seq<ProofEntryView>, list_type: Seq<char>)
    ensures
        kept(list, list_type).len() <= list.len(),
        forall|i: int|
            0 <= i < kept(list, list_type).len() ==> wanted(
                #[trigger] kept(list, list_type)[i],
                list_type,
            ),
    decreases list.len(),
{
    if list.len() > 0 {
        lemma_kept_wanted(list.drop_last(), list_type);
    }
}

/// A listing is never longer than [`LISTING_LIMIT`], nor than the list it was
/// made from, and runs from the newest entry to the oldest, however many
/// proofs there are.
pub proof fn lemma_selection_bounded_descending(list: Seq<ProofEntryView>, list_type: Seq<char>)
    ensures
        selection(list, list_type).len() <= LISTING_LIMIT,
        selection(list, list_type).len() <= list.len(),
        descending(selection(list, list_type)),
{
    let sorted = newest_first(kept(list, list_type));
    lemma_kept_wanted(list, list_type);
    lemma_newest_first_permutes(kept(list, list_type));
    lemma_newest_first_descending(kept(list, list_type));
    let chosen = selection(list, list_type);
    assert forall|i: int, j: int| 0 <= i <= j < chosen.len() implies chosen[i].timestamp
        >= chosen[j].timestamp by {
        assert(chosen[i] == sorted[i] && chosen[j] == sorted[j]);
    }
}

/// A listing of verifications holds no proof that lacks the marker, whatever
/// the directory holds.
pub proof fn lemma_verifications_verified(list: Seq<ProofEntryView>)
    ensures
        forall|i: int|
            0 <= i < selection(list, "verifications"@).len() ==> (#[trigger] selection(
                list,
                "verifications"@,
            )[i]).verified,
{
    let list_type = "verifications"@;
    let chosen = selection(list, list_type);
    let sorted = newest_first(kept(list, list_type));
    lemma_kept_wanted(list, list_type);
    lemma_newest_first_keeps(kept(list, list_type), |e: ProofEntryView| e.verified);
    assert forall|i: int| 0 <= i < chosen.len() implies (#[trigger] chosen[i]).verified by {
        assert(chosen[i] == sorted[i]);
    }
}

/// Every entry that a listing leaves out for want of room is no newer than
/// any entry in it.
pub proof fn lemma_selection_newest(list: Seq<ProofEntryView>, list_type: Seq<char>)
    ensures
        forall|i: int, j: int|
            0 <= i < selection(list, list_type).len() && selection(list, list_type).len() <= j
                < newest_first(kept(list, list_type)).len() ==> (#[trigger] selection(
                list,
                list_type,
            )[i]).timestamp >= (#[trigger] newest_first(kept(list, list_type))[j]).timestamp,
{
    let sorted = newest_first(kept(list, list_type));
    let chosen = selection(list, list_type);
    lemma_newest_first_descending(kept(list, list_type));
    assert forall|i: int, j: int|
        0 <= i < chosen.len() && chosen.len() <= j < sorted.len() implies (#[trigger] chosen[i]).timestamp
        >= (#[trigger] sorted[j]).timestamp by {
        assert(chosen[i] == sorted[i]);
    }
}

/// The function that a directory's name hints at.
pub fn infer_function_from_filename(filename: &str) -> (function: String)
    ensures
        function@ == inferred_function(filename@),
{
    if contains(filename, "kyc") {
        String::from_str("prove_kyc")
    } else if contains(filename, "location") {
        String::from_str("prove_location")
    } else if contains(filename, "ai") {
        String::from_str("prove_ai_content")
    } else if contains(filename, "custom") {
        String::from_str("prove_custom")
    } else {
        String::from_str("unknown")
    }
}

/// The function of the proof in the directory `name`, given what was read
/// from its metadata.
pub fn function_from(name: &str, reading: Option<Option<String>>) -> (function: String)
    ensures
        function@ == function_of(name@, reading_text(reading)),
{
    match reading {
        Some(Some(function)) => function,
        Some(None) => String::from_str("unknown"),
        None => infer_function_from_filename(name),
    }
}

/// What a metadata file says of the proof's function: `None` where there is
/// no file or it holds no JSON document, and otherwise the `function` member
/// of the document, if it has one that is a string.
pub fn read_function(metadata: &Option<String>) -> (reading: Option<Option<String>>)
    ensures
        reading_text(reading) == reading_of(optional_text(*metadata)),
{
    match metadata {
        Some(text) => {
            if parses(text.as_str()) {
                Some(text_in(text.as_str(), "function"))
            } else {
                None
            }
        },
        None => None,
    }
}

/// The listing entry for a child of the proofs directory, if it is a proof,
/// given what was read from its metadata.
pub fn describe_with(child: &DirectoryEntry, reading: Option<Option<String>>) -> (entry: Option<
    ProofEntry,
>)
    ensures
        entry.is_some() == is_candidate(child@),
        entry matches Some(e) ==> e@ == described_with(child@, reading_text(reading)),
{
    if starts_with(child.name.as_str(), "proof_") && child.has_proof {
        Some(
            ProofEntry {
                proof_id: child.name.clone(),
                timestamp: match child.created {
                    Some(seconds) => seconds,
                    None => 0,
                },
                verified: child.verified,
                function: function_from(child.name.as_str(), reading),
            },
        )
    } else {
        None
    }
}

/// The listing entry for a child of the proofs directory, if it is a proof.
pub fn describe(child: &DirectoryEntry) -> (entry: Option<ProofEntry>)
    ensures
        entry.is_some() == is_candidate(child@),
        entry matches Some(e) ==> e@ == described(child@),
{
    describe_with(child, read_function(&child.metadata))
}

/// Where an entry of the given time goes into a sorted list.
fn position(sorted: &Vec<ProofEntry>, timestamp: u64) -> (p: usize)
    ensures
        p == place(entries(sorted@), timestamp),
        p <= sorted@.len(),
{
    let ghost all = entries(sorted@);
    let mut p: usize = sorted.len();
    assert(all.subrange(0, p as int) =~= all);
    while p > 0 && sorted[p - 1].timestamp < timestamp
        invariant
            p <= sorted@.len(),
            all == entries(sorted@),
            place(all, timestamp) == place(all.subrange(0, p as int), timestamp),
        decreases p,
    {
        assert(all.subrange(0, p as int).last() == sorted@[p - 1]@);
        assert(all.subrange(0, p as int).drop_last() =~= all.subrange(0, p - 1));
        p -= 1;
    }
    proof {
        if p > 0 {
            assert(all.subrange(0, p as int).last() == sorted@[p - 1]@);
        }
    }
    p
}

/// The listing of the given kind, chosen from the proofs on disk.
pub fn select_listing(list: &Vec<ProofEntry>, list_type: &str) -> (chosen: Vec<ProofEntry>)
    ensures
        entries(chosen@) == selection(entries(list@), list_type@),
{
    let only_verified: bool = same_text(list_type, "verifications");
    let ghost all = entries(list@);
    let mut sorted: Vec<ProofEntry> = Vec::new();
    let mut i: usize = 0;
    assert(kept(all.subrange(0, 0), list_type@) =~= Seq::empty());
    assert(entries(sorted@) =~= newest_first(kept(all.subrange(0, 0), list_type@)));
    while i < list.len()
        invariant
            i <= list.len(),
            all == entries(list@),
            only_verified == (list_type@ == "verifications"@),
            entries(sorted@) == newest_first(kept(all.subrange(0, i as int), list_type@)),
        decreases list.len() - i,
    {
        let ghost before = all.subrange(0, i as int);
        let ghost now = all.subrange(0, i + 1);
        assert(now.drop_last() =~= before);
        assert(now.last() == list@[i as int]@);
        if !only_verified || list[i].verified {
            let entry: ProofEntry = list[i].clone();
            let p: usize = position(&sorted, entry.timestamp);
            let ghost old_sorted = sorted@;
            sorted.insert(p, entry);
            proof {
                let grown = kept(now, list_type@);
                assert(grown == kept(before, list_type@).push(now.last()));
                assert(grown.drop_last() =~= kept(before, list_type@));
                assert(grown.last() == now.last());
                assert(entries(sorted@) =~= entries(old_sorted).insert(p as int, entry@));
            }
        }
        i += 1;
    }
    assert(all.subrange(0, list.len() as int) =~= all);
    sorted.truncate(LISTING_LIMIT);
    assert(entries(sorted@) =~= selection(all, list_type@));
    sorted
}

/// Lists the proofs on disk for a request.
///
/// The listing holds the children of the proofs directory that are proofs,
/// without the unverified ones where the request asks for `verifications`,
/// from the newest to the oldest, and the [`LISTING_LIMIT`] newest of them at
/// most.
pub fn list_proofs(request: &ProofRequest, directory: &Vec<DirectoryEntry>) -> (out: Vec<Effect>)
    ensures
        effects(out@) == list_plan(request@, children(directory@)),
        out@.len() == 1,
        out@[0]@ matches EffectView::Publish(EnvelopeView::ListResponse { list_type, proofs })
            && proofs.len() <= LISTING_LIMIT && descending(proofs) && (list_type
            == "verifications"@ ==> forall|i: int|
            0 <= i < proofs.len() ==> (#[trigger] proofs[i]).verified),
{
    let list_type: String = if request.arguments.len() > 0 {
        request.arguments[0].clone()
    } else {
        String::from_str("proofs")
    };
    let ghost all = children(directory@);
    let mut found: Vec<ProofEntry> = Vec::new();
    let mut i: usize = 0;
    assert(entries(found@) =~= candidates(all.subrange(0, 0)));
    while i < directory.len()
        invariant
            i <= directory.len(),
            all == children(directory@),
            entries(found@) == candidates(all.subrange(0, i as int)),
        decreases directory.len() - i,
    {
        let ghost before = all.subrange(0, i as int);
        let ghost now = all.subrange(0, i + 1);
        assert(now.drop_last() =~= before);
        assert(now.last() == directory@[i as int]@);
        let ghost old_found = found@;
        match describe(&directory[i]) {
            Some(entry) => {
                found.push(entry);
                assert(entries(found@) =~= entries(old_found).push(entry@));
            },
            None => {},
        }
        i += 1;
    }
    assert(all.subrange(0, directory.len() as int) =~= all);
    let proofs: Vec<ProofEntry> = select_listing(&found, list_type.as_str());
    proof {
        lemma_selection_bounded_descending(candidates(all), list_type@);
        if list_type@ == "verifications"@ {
            lemma_verifications_verified(candidates(all));
        }
    }
    let mut out: Vec<Effect> = Vec::new();
    out.push(Effect::Publish(Envelope::ListResponse { list_type, proofs }));
    assert(effects(out@) =~= list_plan(request@, all));
    out
}

} // verus!
