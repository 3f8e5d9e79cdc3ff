//! A client of the service: what it knows, and what each look-up sends.

use crate::request::{path_suffix_of, lemma_path_suffix_injective, RequestType};
use vstd::prelude::*;

verus! {

/// The address that every look-up URL starts with; the word follows it.
pub const API_BASE: &'static str = "https://wordsapiv1.p.mashape.com/words/";

/// The host that the service is reached at.
pub const MASHAPE_HOST: &'static str = "wordsapiv1.p.mashape.com";

/// The header that carries the client's API token.
pub const X_MASHAPE_KEY: &'static str = "x-mashape-key";

/// The header that names the service's host.
pub const X_MASHAPE_HOST: &'static str = "x-mashape-host";

/// The reply header that says how many requests are left.
pub const X_RATE_LIMIT_REMAINING: &'static str = "x-ratelimit-requests-remaining";

/// The reply header that says how many requests are allowed.
pub const X_RATE_LIMIT_REQUESTS_LIMIT: &'static str = "x-ratelimit-requests-limit";

/// The method of every look-up.
pub const GET: &'static str = "GET";

/// A client of the service, holding the address and the credentials that every
/// look-up uses.
pub struct Client {
    pub api_base: String,
    pub api_token: String,
    pub mashape_host: String,
}

/// What a look-up sends: its method, its URL and its headers, in order.
pub struct ApiRequest {
    pub method: &'static str,
    pub uri: String,
    pub headers: Vec<(&'static str, String)>,
}

/// The URL of a look-up of kind `t` about `word`, for a client whose base
/// address is `base`.
pub open spec fn request_url_of(base: Seq<char>, word: Seq<char>, t: RequestType) -> Seq<char> {
    base + word + path_suffix_of(t)
}

impl Client {
    /// A client that sends `token` with each look-up, to the service's own
    /// address and host.
    pub fn new(token: &str) -> (c: Client)
        ensures
            c.api_token@ == token@,
            c.api_base@ == API_BASE@,
            c.mashape_host@ == MASHAPE_HOST@,
    {
        Client {
            api_base: API_BASE.to_owned(),
            api_token: token.to_owned(),
            mashape_host: MASHAPE_HOST.to_owned(),
        }
    }

    /// The URL of a look-up of kind `request_type` about `word`: the base
    /// address, the word, then the kind's path.
    pub fn request_url(&self, word: &str, request_type: &RequestType) -> (url: String)
        ensures
            url@ == request_url_of(self.api_base@, word@, *request_type),
            url@ == self.api_base@ + word@ + path_suffix_of(*request_type),
    {
        let mut url = self.api_base.clone();
        url.append(word);
        url.append(request_type.path_suffix());
        url
    }

    /// The request that a look-up of kind `request_type` about `word` sends: a
    /// GET of its URL, with the client's token and then its host as headers.
    pub fn request(&self, word: &str, request_type: &RequestType) -> (r: ApiRequest)
        ensures
            r.method@ == GET@,
            r.uri@ == request_url_of(self.api_base@, word@, *request_type),
            r.headers@.len() == 2,
            r.headers@[0].0@ == X_MASHAPE_KEY@,
            r.headers@[0].1@ == self.api_token@,
            r.headers@[1].0@ == X_MASHAPE_HOST@,
            r.headers@[1].1@ == self.mashape_host@,
    {
        let uri = self.request_url(word, request_type);
        let mut headers: Vec<(&'static str, String)> = Vec::new();
        headers.push((X_MASHAPE_KEY, self.api_token.clone()));
        headers.push((X_MASHAPE_HOST, self.mashape_host.clone()));
        ApiRequest { method: GET, uri, headers }
    }
}

/// For one client and one word, the URL tells which kind of look-up was asked
/// for: two kinds never share a URL.
pub proof fn lemma_request_url_determines_type(
    base: Seq<char>,
    word: Seq<char>,
    a: RequestType,
    b: RequestType,
)
    requires
        request_url_of(base, word, a) == request_url_of(base, word, b),
    ensures
        a == b,
{
    let prefix = base + word;
    assert(path_suffix_of(a) =~= request_url_of(base, word, a).skip(prefix.len() as int));
    assert(path_suffix_of(b) =~= request_url_of(base, word, b).skip(prefix.len() as int));
    lemma_path_suffix_injective(a, b);
}

/// Each kind of look-up asks for its own path, the same for every base and
/// every word: `Everything` adds nothing after the word, `Synonyms` adds
/// `/synonyms`, `Antonyms` adds `/antonyms`, and so on.
pub proof fn lemma_request_url_paths(base: Seq<char>, word: Seq<char>)
    ensures
        request_url_of(base, word, RequestType::Everything) == base + word,
        request_url_of(base, word, RequestType::Definitions) == base + word + "/definitions"@,
        request_url_of(base, word, RequestType::Synonyms) == base + word + "/synonyms"@,
        request_url_of(base, word, RequestType::Antonyms) == base + word + "/antonyms"@,
        request_url_of(base, word, RequestType::Examples) == base + word + "/examples"@,
        request_url_of(base, word, RequestType::Rhymes) == base + word + "/rhymes"@,
        request_url_of(base, word, RequestType::Frequency) == base + word + "/frequency"@,
        request_url_of(base, word, RequestType::IsATypeOf) == base + word + "/isATypeOf"@,
        request_url_of(base, word, RequestType::HasTypes) == base + word + "/hasTypes"@,
        request_url_of(base, word, RequestType::PartOf) == base + word + "/partOf"@,
        request_url_of(base, word, RequestType::HasParts) == base + word + "/hasParts"@,
        request_url_of(base, word, RequestType::IsAnInstanceOf) == base + word + "/isAnInstanceOf"@,
        request_url_of(base, word, RequestType::HasInstances) == base + word + "/hasInstances"@,
        request_url_of(base, word, RequestType::InRegion) == base + word + "/inRegion"@,
        request_url_of(base, word, RequestType::RegionOf) == base + word + "/regionOf"@,
        request_url_of(base, word, RequestType::UsageOf) == base + word + "/usageOf"@,
        request_url_of(base, word, RequestType::HasUsages) == base + word + "/hasUsages"@,
        request_url_of(base, word, RequestType::IsAMemberOf) == base + word + "/isAMemberOf"@,
        request_url_of(base, word, RequestType::HasMembers) == base + word + "/hasMembers"@,
        request_url_of(base, word, RequestType::IsASubstanceOf) == base + word + "/isASubstanceOf"@,
        request_url_of(base, word, RequestType::HasSubstances) == base + word + "/hasSubstances"@,
        request_url_of(base, word, RequestType::HasAttribute) == base + word + "/hasAttribute"@,
        request_url_of(base, word, RequestType::InCategory) == base + word + "/inCategory"@,
        request_url_of(base, word, RequestType::HasCategories) == base + word + "/hasCategories"@,
        request_url_of(base, word, RequestType::Also) == base + word + "/also"@,
        request_url_of(base, word, RequestType::PertainsTo) == base + word + "/pertainsTo"@,
        request_url_of(base, word, RequestType::SimilarTo) == base + word + "/similarTo"@,
        request_url_of(base, word, RequestType::Entails) == base + word + "/entails"@,
{
    reveal_strlit("");
    assert(base + word + path_suffix_of(RequestType::Everything) =~= base + word);
}

/// A look-up URL is the base address, then the whole word as given, then the
/// kind's path, for words of every length.
pub proof fn lemma_request_url_holds_whole_word(base: Seq<char>, word: Seq<char>, t: RequestType)
    ensures
        request_url_of(base, word, t).len() == base.len() + word.len() + path_suffix_of(t).len(),
        request_url_of(base, word, t).subrange(0, base.len() as int) == base,
        request_url_of(base, word, t).subrange(base.len() as int, (base.len() + word.len()) as int) == word,
        request_url_of(base, word, t).skip((base.len() + word.len()) as int) == path_suffix_of(t),
{
    let url = request_url_of(base, word, t);
    assert(url.subrange(0, base.len() as int) =~= base);
    assert(url.subrange(base.len() as int, (base.len() + word.len()) as int) =~= word);
    assert(url.skip((base.len() + word.len()) as int) =~= path_suffix_of(t));
}

} // verus!
