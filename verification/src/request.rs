//! Endpoint URL construction and `application/x-www-form-urlencoded`
//! request bodies.  Only parameters that are present are included, in
//! their declared order.

use vstd::prelude::*;
use vstd::string::StringExecFns;

use crate::decimal::{lemma_spec_dec_nonempty, spec_dec, u64_to_dec};

verus! {

/// The URL of the endpoint for `category` and `action`: the fixed base
/// URL, the API version segment, then the two given segments.  It is a
/// pure function of the two segments alone.
pub open spec fn spec_api_url(category: Seq<char>, action: Seq<char>) -> Seq<char> {
    "https://proxer.me/api/v1/"@ + category + "/"@ + action
}

/// Builds the endpoint URL for one category and action.
pub fn api_url(category: &str, action: &str) -> (r: String)
    ensures
        r@ == spec_api_url(category@, action@),
{
    let mut s = "https://proxer.me/api/v1/".to_owned();
    s.append(category);
    s.append("/");
    s.append(action);
    proof {
        assert(s@ =~= spec_api_url(category@, action@));
    }
    s
}

/// The fixed URL of the legacy plain-HTTP news feed.
pub fn news_feed_url() -> (r: String)
    ensures
        r@ == "http://proxer.me/notifications?format=json&s=news&p=1"@,
{
    "http://proxer.me/notifications?format=json&s=news&p=1".to_owned()
}

/// One `key=value` pair of a form-encoded body.
pub open spec fn spec_param(key: Seq<char>, value: Seq<char>) -> Seq<char> {
    key + "="@ + value
}

/// `body` with `key=value` appended, separated from any earlier
/// parameter by `&`.
pub open spec fn spec_append_param(body: Seq<char>, key: Seq<char>, value: Seq<char>) -> Seq<
    char,
> {
    if body.len() == 0 {
        spec_param(key, value)
    } else {
        body + "&"@ + spec_param(key, value)
    }
}

/// Appends one `key=value` pair to a form-encoded body under
/// construction.
fn append_param(body: &mut String, key: &str, value: &str)
    ensures
        final(body)@ == spec_append_param(old(body)@, key@, value@),
{
    if !body.as_str().is_empty() {
        body.append("&");
    }
    body.append(key);
    body.append("=");
    body.append(value);
    proof {
        assert(body@ =~= spec_append_param(old(body)@, key@, value@));
    }
}

/// The body for the manga chapter endpoint: `id` and `episode` always,
/// then `language` exactly when it is present, in that order.
pub open spec fn spec_chapter_body(id: nat, episode: nat, language: Option<Seq<char>>) -> Seq<
    char,
> {
    let base = spec_param("id"@, spec_dec(id)) + "&"@ + spec_param("episode"@, spec_dec(episode));
    match language {
        Some(l) => base + "&"@ + spec_param("language"@, l),
        None => base,
    }
}

/// Builds the body for the manga chapter endpoint; an absent language
/// leaves no trace in the body.
pub fn chapter_body(id: u64, episode: u64, language: Option<&str>) -> (r: String)
    ensures
        r@ == spec_chapter_body(
            id as nat,
            episode as nat,
            match language {
                Some(l) => Some(l@),
                None => None,
            },
        ),
{
    let mut body = String::new();
    let id_s = u64_to_dec(id);
    append_param(&mut body, "id", id_s.as_str());
    let episode_s = u64_to_dec(episode);
    append_param(&mut body, "episode", episode_s.as_str());
    if let Some(l) = language {
        append_param(&mut body, "language", l);
    }
    proof {
        lemma_spec_dec_nonempty(id as nat);
        lemma_spec_dec_nonempty(episode as nat);
        assert(body@ =~= spec_chapter_body(
            id as nat,
            episode as nat,
            match language {
                Some(l) => Some(l@),
                None => None,
            },
        ));
    }
    body
}

/// The body for the news listing endpoint: exactly the present
/// parameters appear, `p` before `limit`; an absent parameter leaves no
/// trace in the body.
pub open spec fn spec_news_body(page: Option<u64>, limit: Option<u64>) -> Seq<char> {
    match (page, limit) {
        (None, None) => Seq::empty(),
        (Some(p), None) => spec_param("p"@, spec_dec(p as nat)),
        (None, Some(l)) => spec_param("limit"@, spec_dec(l as nat)),
        (Some(p), Some(l)) => spec_param("p"@, spec_dec(p as nat)) + "&"@ + spec_param(
            "limit"@,
            spec_dec(l as nat),
        ),
    }
}

/// Builds the body for the news listing endpoint from its optional
/// parameters.
pub fn news_body(page: Option<u64>, limit: Option<u64>) -> (r: String)
    ensures
        r@ == spec_news_body(page, limit),
{
    let mut body = String::new();
    if let Some(p) = page {
        let p_s = u64_to_dec(p);
        append_param(&mut body, "p", p_s.as_str());
    }
    if let Some(l) = limit {
        let l_s = u64_to_dec(l);
        append_param(&mut body, "limit", l_s.as_str());
    }
    proof {
        if page is Some {
            lemma_spec_dec_nonempty(page.unwrap() as nat);
        }
        if limit is Some {
            lemma_spec_dec_nonempty(limit.unwrap() as nat);
        }
        assert(body@ =~= spec_news_body(page, limit));
    }
    body
}

/// The body for the notification delete endpoint: the single optional
/// parameter `nid`, or an empty body when it is absent.
pub open spec fn spec_delete_body(nid: Option<u64>) -> Seq<char> {
    match nid {
        None => Seq::empty(),
        Some(n) => spec_param("nid"@, spec_dec(n as nat)),
    }
}

/// Builds the body for the notification delete endpoint.
pub fn delete_body(nid: Option<u64>) -> (r: String)
    ensures
        r@ == spec_delete_body(nid),
{
    let mut body = String::new();
    if let Some(n) = nid {
        let n_s = u64_to_dec(n);
        append_param(&mut body, "nid", n_s.as_str());
    }
    proof {
        assert(body@ =~= spec_delete_body(nid));
    }
    body
}

} // verus!
