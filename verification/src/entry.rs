//! One sense of a word, as the service describes it.

use vstd::prelude::*;

verus! {

/// One sense of a word: its definition and the words related to it in that
/// sense, each list present only where the service sent it.
#[derive(Debug, Clone)]
pub struct Entry {
    pub definition: String,
    pub part_of_speech: Option<String>,
    pub derivation: Option<Vec<String>>,
    pub has_substances: Option<Vec<String>>,
    pub type_of: Option<Vec<String>>,
    pub verb_group: Option<Vec<String>>,
    pub has_types: Option<Vec<String>>,
    pub has_parts: Option<Vec<String>>,
    pub member_of: Option<Vec<String>>,
    pub part_of: Option<Vec<String>>,
    pub synonyms: Option<Vec<String>>,
    pub antonyms: Option<Vec<String>>,
    pub examples: Option<Vec<String>>,
    pub similar_to: Option<Vec<String>>,
    pub pertains_to: Option<Vec<String>>,
}

} // verus!
