//! The kinds of look-up the service offers, and the library's errors.

use vstd::prelude::*;
use vstd::string::StringExecFns;

verus! {

/// What a look-up asks the service for about a word.
#[derive(Debug, Clone, Copy, PartialEq, Eq, Structural)]
pub enum RequestType {
    Everything,
    Definitions,
    Synonyms,
    Antonyms,
    Examples,
    Rhymes,
    Frequency,
    IsATypeOf,
    HasTypes,
    PartOf,
    HasParts,
    IsAnInstanceOf,
    HasInstances,
    InRegion,
    RegionOf,
    UsageOf,
    HasUsages,
    IsAMemberOf,
    HasMembers,
    IsASubstanceOf,
    HasSubstances,
    HasAttribute,
    InCategory,
    HasCategories,
    Also,
    PertainsTo,
    SimilarTo,
    Entails,
}

/// The path that follows the word in the URL of a look-up of kind `t`.
pub open spec fn path_suffix_of(t: RequestType) -> Seq<char> {
    match t {
        RequestType::Everything => ""@,
        RequestType::Definitions => "/definitions"@,
        RequestType::Synonyms => "/synonyms"@,
        RequestType::Antonyms => "/antonyms"@,
        RequestType::Examples => "/examples"@,
        RequestType::Rhymes => "/rhymes"@,
        RequestType::Frequency => "/frequency"@,
        RequestType::IsATypeOf => "/isATypeOf"@,
        RequestType::HasTypes => "/hasTypes"@,
        RequestType::PartOf => "/partOf"@,
        RequestType::HasParts => "/hasParts"@,
        RequestType::IsAnInstanceOf => "/isAnInstanceOf"@,
        RequestType::HasInstances => "/hasInstances"@,
        RequestType::InRegion => "/inRegion"@,
        RequestType::RegionOf => "/regionOf"@,
        RequestType::UsageOf => "/usageOf"@,
        RequestType::HasUsages => "/hasUsages"@,
        RequestType::IsAMemberOf => "/isAMemberOf"@,
        RequestType::HasMembers => "/hasMembers"@,
        RequestType::IsASubstanceOf => "/isASubstanceOf"@,
        RequestType::HasSubstances => "/hasSubstances"@,
        RequestType::HasAttribute => "/hasAttribute"@,
        RequestType::InCategory => "/inCategory"@,
        RequestType::HasCategories => "/hasCategories"@,
        RequestType::Also => "/also"@,
        RequestType::PertainsTo => "/pertainsTo"@,
        RequestType::SimilarTo => "/similarTo"@,
        RequestType::Entails => "/entails"@,
    }
}

impl RequestType {
    /// The path that follows the word in the URL of a look-up of this kind:
    /// empty for `Everything`, else a slash and the kind's name in the service.
    pub fn path_suffix(&self) -> (s: &'static str)
        ensures
            s@ == path_suffix_of(*self),
    {
        match *self {
            RequestType::Everything => "",
            RequestType::Definitions => "/definitions",
            RequestType::Synonyms => "/synonyms",
            RequestType::Antonyms => "/antonyms",
            RequestType::Examples => "/examples",
            RequestType::Rhymes => "/rhymes",
            RequestType::Frequency => "/frequency",
            RequestType::IsATypeOf => "/isATypeOf",
            RequestType::HasTypes => "/hasTypes",
            RequestType::PartOf => "/partOf",
            RequestType::HasParts => "/hasParts",
            RequestType::IsAnInstanceOf => "/isAnInstanceOf",
            RequestType::HasInstances => "/hasInstances",
            RequestType::InRegion => "/inRegion",
            RequestType::RegionOf => "/regionOf",
            RequestType::UsageOf => "/usageOf",
            RequestType::HasUsages => "/hasUsages",
            RequestType::IsAMemberOf => "/isAMemberOf",
            RequestType::HasMembers => "/hasMembers",
            RequestType::IsASubstanceOf => "/isASubstanceOf",
            RequestType::HasSubstances => "/hasSubstances",
            RequestType::HasAttribute => "/hasAttribute",
            RequestType::InCategory => "/inCategory",
            RequestType::HasCategories => "/hasCategories",
            RequestType::Also => "/also",
            RequestType::PertainsTo => "/pertainsTo",
            RequestType::SimilarTo => "/similarTo",
            RequestType::Entails => "/entails",
        }
    }
}

/// Why a look-up failed.
#[derive(Debug, Clone, Copy, PartialEq, Eq, Structural)]
pub enum RequestError {
    /// The request could not be sent, or no reply came back.
    RequestError,
    /// The reply's body is not the JSON description of a word.
    ResultParseError,
}

impl RequestError {
    /// The error's name, as it is displayed.
    pub fn to_string(&self) -> (s: String)
        ensures
            s@ == (match *self {
                RequestError::RequestError => "RequestError"@,
                RequestError::ResultParseError => "ResultParseError"@,
            }),
    {
        match *self {
            RequestError::RequestError => String::from_str("RequestError"),
            RequestError::ResultParseError => String::from_str("ResultParseError"),
        }
    }

    /// A sentence that says what went wrong.
    pub fn description(&self) -> (s: &'static str)
        ensures
            s@ == (match *self {
                RequestError::RequestError => "WordAPI request failed"@,
                RequestError::ResultParseError => "Could not parse result"@,
            }),
    {
        match *self {
            RequestError::RequestError => "WordAPI request failed",
            RequestError::ResultParseError => "Could not parse result",
        }
    }
}

/// Different kinds of look-up follow the word with different paths, so no two
/// kinds ask the service for the same thing.
pub proof fn lemma_path_suffix_injective(a: RequestType, b: RequestType)
    requires
        path_suffix_of(a) == path_suffix_of(b),
    ensures
        a == b,
{
    reveal_strlit("");
    reveal_strlit("/definitions");
    reveal_strlit("/synonyms");
    reveal_strlit("/antonyms");
    reveal_strlit("/examples");
    reveal_strlit("/rhymes");
    reveal_strlit("/frequency");
    reveal_strlit("/isATypeOf");
    reveal_strlit("/hasTypes");
    reveal_strlit("/partOf");
    reveal_strlit("/hasParts");
    reveal_strlit("/isAnInstanceOf");
    reveal_strlit("/hasInstances");
    reveal_strlit("/inRegion");
    reveal_strlit("/regionOf");
    reveal_strlit("/usageOf");
    reveal_strlit("/hasUsages");
    reveal_strlit("/isAMemberOf");
    reveal_strlit("/hasMembers");
    reveal_strlit("/isASubstanceOf");
    reveal_strlit("/hasSubstances");
    reveal_strlit("/hasAttribute");
    reveal_strlit("/inCategory");
    reveal_strlit("/hasCategories");
    reveal_strlit("/also");
    reveal_strlit("/pertainsTo");
    reveal_strlit("/similarTo");
    reveal_strlit("/entails");
    let sa = path_suffix_of(a);
    let sb = path_suffix_of(b);
    assert(sa.len() == sb.len());
    assert(sa[1] == sb[1]);
    assert(sa[4] == sb[4]);
}

} // verus!
