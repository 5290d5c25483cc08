//! The proof request: the intent that the collaborator extracted from a
//! client's message.

use vstd::prelude::*;
use crate::json::optional_text;

verus! {

/// A structured instruction to prove, verify or list.
///
/// `additional_context` is a JSON document carried as text; the stages read
/// three of its members (`is_verification`, `is_automated_transfer`,
/// `wasm_file`) and hand the rest on untouched.
#[derive(Debug, PartialEq, Eq)]
pub struct ProofRequest {
    pub function: String,
    pub arguments: Vec<String>,
    pub step_size: u64,
    pub explanation: String,
    pub additional_context: Option<String>,
}

/// What a [`ProofRequest`] says.
pub struct ProofRequestView {
    pub function: Seq<char>,
    pub arguments: Seq<Seq<char>>,
    pub step_size: u64,
    pub explanation: Seq<char>,
    pub additional_context: Option<Seq<char>>,
}

/// The characters of each text of a list.
pub open spec fn texts(list: Seq<String>) -> Seq<Seq<char>> {
    list.map_values(|t: String| t@)
}

impl View for ProofRequest {
    type V = ProofRequestView;

    open spec fn view(&self) -> ProofRequestView {
        ProofRequestView {
            function: self.function@,
            arguments: texts(self.arguments@),
            step_size: self.step_size,
            explanation: self.explanation@,
            additional_context: optional_text(self.additional_context),
        }
    }
}

/// A copy of a list of texts.
pub fn copy_texts(list: &Vec<String>) -> (copy: Vec<String>)
    ensures
        texts(copy@) == texts(list@),
{
    let mut copy: Vec<String> = Vec::new();
    let mut i: usize = 0;
    while i < list.len()
        invariant
            i <= list.len(),
            copy@.len() == i,
            forall|k: int| 0 <= k < i ==> copy@[k]@ == list@[k]@,
        decreases list.len() - i,
    {
        copy.push(list[i].clone());
        i += 1;
    }
    assert(texts(copy@) =~= texts(list@));
    copy
}

/// A copy of a text that may be absent.
pub fn copy_optional_text(text: &Option<String>) -> (copy: Option<String>)
    ensures
        optional_text(copy) == optional_text(*text),
{
    match text {
        Some(t) => Some(t.clone()),
        None => None,
    }
}

impl Clone for ProofRequest {
    fn clone(&self) -> (copy: Self)
        ensures
            copy@ == self@,
    {
        ProofRequest {
            function: self.function.clone(),
            arguments: copy_texts(&self.arguments),
            step_size: self.step_size,
            explanation: self.explanation.clone(),
            additional_context: copy_optional_text(&self.additional_context),
        }
    }
}

} // verus!
