//! The events that go out to every connected client.

use vstd::prelude::*;
use crate::json::optional_text;
use crate::request::{ProofRequest, ProofRequestView};

verus! {

/// One line of a proof listing.
#[derive(Debug, PartialEq, Eq)]
pub struct ProofEntry {
    pub proof_id: String,
    pub timestamp: u64,
    pub verified: bool,
    pub function: String,
}

/// What a [`ProofEntry`] says.
pub struct ProofEntryView {
    pub proof_id: Seq<char>,
    pub timestamp: u64,
    pub verified: bool,
    pub function: Seq<char>,
}

impl View for ProofEntry {
    type V = ProofEntryView;

    open spec fn view(&self) -> ProofEntryView {
        ProofEntryView {
            proof_id: self.proof_id@,
            timestamp: self.timestamp,
            verified: self.verified,
            function: self.function@,
        }
    }
}

/// What each entry of a listing says.
pub open spec fn entries(list: Seq<ProofEntry>) -> Seq<ProofEntryView> {
    list.map_values(|e: ProofEntry| e@)
}

/// An event for the clients. Each variant carries what varies; the words that
/// are the same in every envelope of a variant come from [`Envelope::kind`],
/// [`Envelope::status`], [`Envelope::message`] and [`Envelope::result`]; a
/// listing's count comes from [`Envelope::count`].
///
/// `metadata` of a chat response, and `result` of a completed transfer, are
/// JSON documents carried as text.
#[allow(inconsistent_fields)]
#[derive(Debug, PartialEq, Eq)]
pub enum Envelope {
    ChatResponse { response: String, metadata: Option<String> },
    ProofStatus { proof_id: String, metadata: ProofRequest },
    ProofComplete { proof_id: String, time_ms: u128, proof_size: u64, metadata: ProofRequest },
    ProofError { proof_id: String, error: String },
    VerificationStatus { proof_id: String },
    VerificationComplete { proof_id: String, valid: bool },
    VerificationError { proof_id: String, error: String },
    TransferStatus { proof_id: String },
    TransferComplete { proof_id: String, result: String },
    TransferError { proof_id: String, error: String },
    ListResponse { list_type: String, proofs: Vec<ProofEntry> },
    Error { response: String },
}

/// What an [`Envelope`] says.
#[allow(inconsistent_fields)]
pub enum EnvelopeView {
    ChatResponse { response: Seq<char>, metadata: Option<Seq<char>> },
    ProofStatus { proof_id: Seq<char>, metadata: ProofRequestView },
    ProofComplete { proof_id: Seq<char>, time_ms: u128, proof_size: u64, metadata: ProofRequestView },
    ProofError { proof_id: Seq<char>, error: Seq<char> },
    VerificationStatus { proof_id: Seq<char> },
    VerificationComplete { proof_id: Seq<char>, valid: bool },
    VerificationError { proof_id: Seq<char>, error: Seq<char> },
    TransferStatus { proof_id: Seq<char> },
    TransferComplete { proof_id: Seq<char>, result: Seq<char> },
    TransferError { proof_id: Seq<char>, error: Seq<char> },
    ListResponse { list_type: Seq<char>, proofs: Seq<ProofEntryView> },
    Error { response: Seq<char> },
}

impl View for Envelope {
    type V = EnvelopeView;

    open spec fn view(&self) -> EnvelopeView {
        match *self {
            Envelope::ChatResponse { response, metadata } => EnvelopeView::ChatResponse {
                response: response@,
                metadata: optional_text(metadata),
            },
            Envelope::ProofStatus { proof_id, metadata } => EnvelopeView::ProofStatus {
                proof_id: proof_id@,
                metadata: metadata@,
            },
            Envelope::ProofComplete {
                proof_id,
                time_ms,
                proof_size,
                metadata,
            } => EnvelopeView::ProofComplete {
                proof_id: proof_id@,
                time_ms,
                proof_size,
                metadata: metadata@,
            },
            Envelope::ProofError { proof_id, error } => EnvelopeView::ProofError {
                proof_id: proof_id@,
                error: error@,
            },
            Envelope::VerificationStatus { proof_id } => EnvelopeView::VerificationStatus {
                proof_id: proof_id@,
            },
            Envelope::VerificationComplete { proof_id, valid } => EnvelopeView::VerificationComplete {
                proof_id: proof_id@,
                valid,
            },
            Envelope::VerificationError { proof_id, error } => EnvelopeView::VerificationError {
                proof_id: proof_id@,
                error: error@,
            },
            Envelope::TransferStatus { proof_id } => EnvelopeView::TransferStatus {
                proof_id: proof_id@,
            },
            Envelope::TransferComplete { proof_id, result } => EnvelopeView::TransferComplete {
                proof_id: proof_id@,
                result: result@,
            },
            Envelope::TransferError { proof_id, error } => EnvelopeView::TransferError {
                proof_id: proof_id@,
                error: error@,
            },
            Envelope::ListResponse { list_type, proofs } => EnvelopeView::ListResponse {
                list_type: list_type@,
                proofs: entries(proofs@),
            },
            Envelope::Error { response } => EnvelopeView::Error { response: response@ },
        }
    }
}

impl EnvelopeView {
    /// The `type` discriminant of the envelope on the wire.
    pub open spec fn kind(self) -> Seq<char> {
        match self {
            EnvelopeView::ChatResponse { .. } => "chat_response"@,
            EnvelopeView::ProofStatus { .. } => "proof_status"@,
            EnvelopeView::ProofComplete { .. } => "proof_complete"@,
            EnvelopeView::ProofError { .. } => "proof_error"@,
            EnvelopeView::VerificationStatus { .. } => "verification_status"@,
            EnvelopeView::VerificationComplete { .. } => "verification_complete"@,
            EnvelopeView::VerificationError { .. } => "verification_error"@,
            EnvelopeView::TransferStatus { .. } => "transfer_status"@,
            EnvelopeView::TransferComplete { .. } => "transfer_complete"@,
            EnvelopeView::TransferError { .. } => "transfer_error"@,
            EnvelopeView::ListResponse { .. } => "list_response"@,
            EnvelopeView::Error { .. } => "error"@,
        }
    }

    /// The `status` word of the envelope, for the variants that have one.
    pub open spec fn status(self) -> Option<Seq<char>> {
        match self {
            EnvelopeView::ProofStatus { .. } => Some("generating"@),
            EnvelopeView::ProofComplete { .. } => Some("complete"@),
            EnvelopeView::VerificationStatus { .. } => Some("verifying"@),
            EnvelopeView::VerificationComplete { valid, .. } => Some(
                if valid {
                    "verified"@
                } else {
                    "invalid"@
                },
            ),
            EnvelopeView::TransferStatus { .. } => Some("executing"@),
            EnvelopeView::TransferComplete { .. } => Some("complete"@),
            _ => None,
        }
    }

    /// The progress message of the envelope, for the three status variants.
    pub open spec fn message(self) -> Option<Seq<char>> {
        match self {
            EnvelopeView::ProofStatus { .. } => Some("Generating proof..."@),
            EnvelopeView::VerificationStatus { .. } => Some("Verifying proof..."@),
            EnvelopeView::TransferStatus { .. } => Some("Executing USDC transfer..."@),
            _ => None,
        }
    }

    /// The verdict word of a completed verification.
    pub open spec fn result(self) -> Option<Seq<char>> {
        match self {
            EnvelopeView::VerificationComplete { valid, .. } => Some(
                if valid {
                    "VALID"@
                } else {
                    "INVALID"@
                },
            ),
            _ => None,
        }
    }

    /// The number of proofs in a listing.
    pub open spec fn count(self) -> Option<nat> {
        match self {
            EnvelopeView::ListResponse { proofs, .. } => Some(proofs.len()),
            _ => None,
        }
    }

    /// The proof that the envelope is about, for the variants that name one.
    pub open spec fn proof_id(self) -> Option<Seq<char>> {
        match self {
            EnvelopeView::ProofStatus { proof_id, .. } => Some(proof_id),
            EnvelopeView::ProofComplete { proof_id, .. } => Some(proof_id),
            EnvelopeView::ProofError { proof_id, .. } => Some(proof_id),
            EnvelopeView::VerificationStatus { proof_id } => Some(proof_id),
            EnvelopeView::VerificationComplete { proof_id, .. } => Some(proof_id),
            EnvelopeView::VerificationError { proof_id, .. } => Some(proof_id),
            EnvelopeView::TransferStatus { proof_id } => Some(proof_id),
            EnvelopeView::TransferComplete { proof_id, .. } => Some(proof_id),
            EnvelopeView::TransferError { proof_id, .. } => Some(proof_id),
            _ => None,
        }
    }
}

/// The words of a text that may be absent.
pub open spec fn optional_word(word: Option<&'static str>) -> Option<Seq<char>> {
    match word {
        Some(w) => Some(w@),
        None => None,
    }
}

impl Envelope {
    /// The `type` discriminant of the envelope on the wire.
    pub fn kind(&self) -> (word: &'static str)
        ensures
            word@ == self@.kind(),
    {
        match self {
            Envelope::ChatResponse { .. } => "chat_response",
            Envelope::ProofStatus { .. } => "proof_status",
            Envelope::ProofComplete { .. } => "proof_complete",
            Envelope::ProofError { .. } => "proof_error",
            Envelope::VerificationStatus { .. } => "verification_status",
            Envelope::VerificationComplete { .. } => "verification_complete",
            Envelope::VerificationError { .. } => "verification_error",
            Envelope::TransferStatus { .. } => "transfer_status",
            Envelope::TransferComplete { .. } => "transfer_complete",
            Envelope::TransferError { .. } => "transfer_error",
            Envelope::ListResponse { .. } => "list_response",
            Envelope::Error { .. } => "error",
        }
    }

    /// The `status` word of the envelope, for the variants that have one.
    pub fn status(&self) -> (word: Option<&'static str>)
        ensures
            optional_word(word) == self@.status(),
    {
        match self {
            Envelope::ProofStatus { .. } => Some("generating"),
            Envelope::ProofComplete { .. } => Some("complete"),
            Envelope::VerificationStatus { .. } => Some("verifying"),
            Envelope::VerificationComplete { valid, .. } => if *valid {
                Some("verified")
            } else {
                Some("invalid")
            },
            Envelope::TransferStatus { .. } => Some("executing"),
            Envelope::TransferComplete { .. } => Some("complete"),
            _ => None,
        }
    }

    /// The progress message of the envelope, for the three status variants.
    pub fn message(&self) -> (word: Option<&'static str>)
        ensures
            optional_word(word) == self@.message(),
    {
        match self {
            Envelope::ProofStatus { .. } => Some("Generating proof..."),
            Envelope::VerificationStatus { .. } => Some("Verifying proof..."),
            Envelope::TransferStatus { .. } => Some("Executing USDC transfer..."),
            _ => None,
        }
    }

    /// The number of proofs in a listing.
    pub fn count(&self) -> (n: Option<usize>)
        ensures
            (match n {
                Some(n) => self@.count() == Some(n as nat),
                None => self@.count().is_none(),
            }),
    {
        match self {
            Envelope::ListResponse { proofs, .. } => Some(proofs.len()),
            _ => None,
        }
    }

    /// The proof that the envelope is about, for the variants that name one.
    pub fn proof_id(&self) -> (id: Option<&String>)
        ensures
            (match id {
                Some(id) => self@.proof_id() == Some(id@),
                None => self@.proof_id().is_none(),
            }),
    {
        match self {
            Envelope::ProofStatus { proof_id, .. } => Some(proof_id),
            Envelope::ProofComplete { proof_id, .. } => Some(proof_id),
            Envelope::ProofError { proof_id, .. } => Some(proof_id),
            Envelope::VerificationStatus { proof_id } => Some(proof_id),
            Envelope::VerificationComplete { proof_id, .. } => Some(proof_id),
            Envelope::VerificationError { proof_id, .. } => Some(proof_id),
            Envelope::TransferStatus { proof_id } => Some(proof_id),
            Envelope::TransferComplete { proof_id, .. } => Some(proof_id),
            Envelope::TransferError { proof_id, .. } => Some(proof_id),
            _ => None,
        }
    }

    /// The verdict word of a completed verification.
    pub fn result(&self) -> (word: Option<&'static str>)
        ensures
            optional_word(word) == self@.result(),
    {
        match self {
            Envelope::VerificationComplete { valid, .. } => if *valid {
                Some("VALID")
            } else {
                Some("INVALID")
            },
            _ => None,
        }
    }
}

} // verus!
