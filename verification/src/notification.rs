//! Notification endpoints: news listing, notification counts, and
//! deletion of single notifications.

use vstd::prelude::*;

use crate::envelope::{check_error, spec_message, spec_unwrap, unwrap_envelope, SpecFailure};
use crate::error::ProxerError;
use crate::json::{field_i64, field_string, field_u64, parse_body, read_envelope, spec_as_string,
    spec_field_i64, spec_field_string, spec_field_u64, spec_parse, value_as_array,
    value_as_string, ResponseModel};

verus! {

/// One news entry, as the news listing endpoint returns it.
#[derive(Debug, Clone, PartialEq)]
pub struct News {
    /// The news entry's id.
    pub nid: u64,
    /// The publication time as a Unix timestamp.
    pub time: i64,
    /// The id of the matching forum post.
    pub mid: u64,
    /// The entry's description.
    pub description: String,
    /// The id of the entry's image.
    pub image_id: String,
    /// CSS style directives that position the image.
    pub image_style: String,
    /// The title of the matching forum post.
    pub subject: String,
    /// How often the matching forum post was read.
    pub hits: u64,
    /// The thread's id, the same as `mid`.
    pub thread: u64,
    /// The author's user id.
    pub uid: u64,
    /// The author's user name.
    pub uname: String,
    /// The number of replies to the entry.
    pub posts: u64,
    /// The id of the category the entry belongs to.
    pub catid: u64,
    /// The name of that category.
    pub catname: String,
}

/// The mathematical view of a news entry.
pub struct NewsView {
    pub nid: u64,
    pub time: i64,
    pub mid: u64,
    pub description: Seq<char>,
    pub image_id: Seq<char>,
    pub image_style: Seq<char>,
    pub subject: Seq<char>,
    pub hits: u64,
    pub thread: u64,
    pub uid: u64,
    pub uname: Seq<char>,
    pub posts: u64,
    pub catid: u64,
    pub catname: Seq<char>,
}

impl View for News {
    type V = NewsView;

    open spec fn view(&self) -> NewsView {
        NewsView {
            nid: self.nid,
            time: self.time,
            mid: self.mid,
            description: self.description@,
            image_id: self.image_id@,
            image_style: self.image_style@,
            subject: self.subject@,
            hits: self.hits,
            thread: self.thread,
            uid: self.uid,
            uname: self.uname@,
            posts: self.posts,
            catid: self.catid,
            catname: self.catname@,
        }
    }
}

impl DeepView for News {
    type V = NewsView;

    open spec fn deep_view(&self) -> NewsView {
        self.view()
    }
}

/// The news entry a JSON object holds, read off the names: none when
/// any field is missing or has the wrong type.
pub open spec fn spec_news_of(v: serde_json::Value) -> Option<NewsView> {
    if spec_field_u64(v, "nid"@) is None || spec_field_i64(v, "time"@) is None || spec_field_u64(
        v,
        "mid"@,
    ) is None || spec_field_string(v, "description"@) is None || spec_field_string(
        v,
        "image_id"@,
    ) is None || spec_field_string(v, "image_style"@) is None || spec_field_string(
        v,
        "subject"@,
    ) is None || spec_field_u64(v, "hits"@) is None || spec_field_u64(v, "thread"@) is None
        || spec_field_u64(v, "uid"@) is None || spec_field_string(v, "uname"@) is None
        || spec_field_u64(v, "posts"@) is None || spec_field_u64(v, "catid"@) is None
        || spec_field_string(v, "catname"@) is None {
        None
    } else {
        Some(
            NewsView {
                nid: spec_field_u64(v, "nid"@).unwrap(),
                time: spec_field_i64(v, "time"@).unwrap(),
                mid: spec_field_u64(v, "mid"@).unwrap(),
                description: spec_field_string(v, "description"@).unwrap(),
                image_id: spec_field_string(v, "image_id"@).unwrap(),
                image_style: spec_field_string(v, "image_style"@).unwrap(),
                subject: spec_field_string(v, "subject"@).unwrap(),
                hits: spec_field_u64(v, "hits"@).unwrap(),
                thread: spec_field_u64(v, "thread"@).unwrap(),
                uid: spec_field_u64(v, "uid"@).unwrap(),
                uname: spec_field_string(v, "uname"@).unwrap(),
                posts: spec_field_u64(v, "posts"@).unwrap(),
                catid: spec_field_u64(v, "catid"@).unwrap(),
                catname: spec_field_string(v, "catname"@).unwrap(),
            },
        )
    }
}

/// The news entries an array of JSON objects holds: none when any
/// element fails to decode.
pub open spec fn spec_news_seq_of(arr: Seq<serde_json::Value>) -> Option<Seq<NewsView>>
    decreases arr.len(),
{
    if arr.len() == 0 {
        Some(Seq::empty())
    } else {
        match (spec_news_seq_of(arr.drop_last()), spec_news_of(arr.last())) {
            (Some(rest), Some(n)) => Some(rest.push(n)),
            _ => None,
        }
    }
}

/// One undecodable element makes the whole array undecodable.
proof fn lemma_news_seq_of_none(arr: Seq<serde_json::Value>, i: int)
    requires
        0 <= i < arr.len(),
        spec_news_of(arr[i]) is None,
    ensures
        spec_news_seq_of(arr) is None,
    decreases arr.len(),
{
    if i < arr.len() - 1 {
        lemma_news_seq_of_none(arr.drop_last(), i);
    }
}

/// Reads one news entry out of a JSON object, exactly when
/// `spec_news_of` has one there.
fn decode_news(v: &serde_json::Value) -> (r: Option<News>)
    ensures
        r matches Some(n) ==> spec_news_of(*v) == Some(n@),
        r is None ==> spec_news_of(*v) is None,
{
    let nid = match field_u64(v, "nid") {
        Some(x) => x,
        None => {
            return None;
        },
    };
    let time = match field_i64(v, "time") {
        Some(x) => x,
        None => {
            return None;
        },
    };
    let mid = match field_u64(v, "mid") {
        Some(x) => x,
        None => {
            return None;
        },
    };
    let description = match field_string(v, "description") {
        Some(x) => x,
        None => {
            return None;
        },
    };
    let image_id = match field_string(v, "image_id") {
        Some(x) => x,
        None => {
            return None;
        },
    };
    let image_style = match field_string(v, "image_style") {
        Some(x) => x,
        None => {
            return None;
        },
    };
    let subject = match field_string(v, "subject") {
        Some(x) => x,
        None => {
            return None;
        },
    };
    let hits = match field_u64(v, "hits") {
        Some(x) => x,
        None => {
            return None;
        },
    };
    let thread = match field_u64(v, "thread") {
        Some(x) => x,
        None => {
            return None;
        },
    };
    let uid = match field_u64(v, "uid") {
        Some(x) => x,
        None => {
            return None;
        },
    };
    let uname = match field_string(v, "uname") {
        Some(x) => x,
        None => {
            return None;
        },
    };
    let posts = match field_u64(v, "posts") {
        Some(x) => x,
        None => {
            return None;
        },
    };
    let catid = match field_u64(v, "catid") {
        Some(x) => x,
        None => {
            return None;
        },
    };
    let catname = match field_string(v, "catname") {
        Some(x) => x,
        None => {
            return None;
        },
    };
    Some(
        News {
            nid,
            time,
            mid,
            description,
            image_id,
            image_style,
            subject,
            hits,
            thread,
            uid,
            uname,
            posts,
            catid,
            catname,
        },
    )
}

/// Decodes the news listing endpoint's response body.  The decision
/// follows `spec_response`: unparsable text and a malformed envelope
/// are decode failures, a non-zero error code is an api failure with
/// the envelope's message, a missing payload is a protocol violation,
/// and a payload must be an array of news entries, every one of which
/// is returned, decoded, in order.
#[verifier::loop_isolation(false)]
pub fn decode_news_list_response(text: &str) -> (r: Result<Vec<News>, ProxerError>)
    ensures
        ({
            match crate::json::spec_response(text@) {
                ResponseModel::Unparsed => (r matches Err(e) && e matches ProxerError::Decode(_)),
                ResponseModel::BadEnvelope => (r matches Err(e) && e matches ProxerError::Decode(
                    _,
                )),
                ResponseModel::Failure { code, message } => (r matches Err(ProxerError::Api {
                    code: c,
                    message: m,
                }) && c == code && m@ == message),
                ResponseModel::Missing => r matches Err(ProxerError::MissingData),
                ResponseModel::Payload { data } => match crate::json::spec_as_array(data) {
                    None => (r matches Err(e) && e matches ProxerError::Decode(_)),
                    Some(elems) => match spec_news_seq_of(elems) {
                        Some(views) => (r matches Ok(entries) && entries.deep_view() == views),
                        None => (r matches Err(e) && e matches ProxerError::Decode(_)),
                    },
                },
            }
        }),
{
    let v = match parse_body(text) {
        Ok(v) => v,
        Err(e) => {
            return Err(e);
        },
    };
    let env = match read_envelope(&v) {
        Ok(env) => env,
        Err(e) => {
            return Err(e);
        },
    };
    let data = match unwrap_envelope(env, 0) {
        Ok(d) => d,
        Err(e) => {
            return Err(e);
        },
    };
    proof {
        let m = crate::json::spec_envelope_of(v).unwrap();
        assert(env.error == 0);
        assert(env.data is Some);
        assert(m.2 == Some(*data));
        assert(spec_unwrap(m.0, m.1, m.2, 0u64) == Ok::<serde_json::Value, SpecFailure>(*data));
    }
    let arr = match value_as_array(data) {
        Some(a) => a,
        None => {
            return Err(ProxerError::Decode("news payload is not an array".to_owned()));
        },
    };
    let mut entries: Vec<News> = Vec::new();
    let mut i: usize = 0;
    while i < arr.len()
        invariant
            i <= arr.len(),
            spec_news_seq_of(arr@.take(i as int)) == Some(entries.deep_view()),
        decreases arr.len() - i,
    {
        match decode_news(&arr[i]) {
            Some(n) => {
                let ghost prev = entries.deep_view();
                entries.push(n);
                proof {
                    assert(arr@.take(i + 1 as int).drop_last() =~= arr@.take(i as int));
                    assert(entries.deep_view() =~= prev.push(n@));
                }
            },
            None => {
                proof {
                    lemma_news_seq_of_none(arr@, i as int);
                }
                return Err(ProxerError::Decode("news entry has the wrong shape".to_owned()));
            },
        }
        i = i + 1;
    }
    proof {
        assert(arr@.take(arr@.len() as int) =~= arr@);
    }
    Ok(entries)
}

/// Decodes the notification count endpoint's response body.  The
/// decision follows `spec_response`, and a successful payload must be
/// a string, which is returned as it stands.
pub fn decode_count_response(text: &str) -> (r: Result<String, ProxerError>)
    ensures
        ({
            match crate::json::spec_response(text@) {
                ResponseModel::Unparsed => (r matches Err(e) && e matches ProxerError::Decode(_)),
                ResponseModel::BadEnvelope => (r matches Err(e) && e matches ProxerError::Decode(
                    _,
                )),
                ResponseModel::Failure { code, message } => (r matches Err(ProxerError::Api {
                    code: c,
                    message: m,
                }) && c == code && m@ == message),
                ResponseModel::Missing => r matches Err(ProxerError::MissingData),
                ResponseModel::Payload { data } => match spec_as_string(data) {
                    Some(s) => (r matches Ok(rs) && rs@ == s),
                    None => (r matches Err(e) && e matches ProxerError::Decode(_)),
                },
            }
        }),
{
    let v = match parse_body(text) {
        Ok(v) => v,
        Err(e) => {
            return Err(e);
        },
    };
    let env = match read_envelope(&v) {
        Ok(env) => env,
        Err(e) => {
            return Err(e);
        },
    };
    let data = match unwrap_envelope(env, 0) {
        Ok(d) => d,
        Err(e) => {
            return Err(e);
        },
    };
    proof {
        let m = crate::json::spec_envelope_of(v).unwrap();
        assert(env.error == 0);
        assert(env.data is Some);
        assert(m.2 == Some(*data));
        assert(spec_unwrap(m.0, m.1, m.2, 0u64) == Ok::<serde_json::Value, SpecFailure>(*data));
    }
    match value_as_string(data) {
        Some(s) => Ok(s),
        None => Err(ProxerError::Decode("count payload is not a string".to_owned())),
    }
}

/// Decodes the notification delete endpoint's response body: only the
/// error code and the message are checked, no payload is required.
/// Unparsable text and a missing integer `error` field are decode
/// failures; otherwise the result is success exactly when the error
/// code is zero, and an api failure carrying the envelope's message
/// (or the empty string) otherwise.
pub fn decode_empty_response(text: &str) -> (r: Result<(), ProxerError>)
    ensures
        spec_parse(text@) is None ==> (r matches Err(e) && e matches ProxerError::Decode(_)),
        spec_parse(text@) matches Some(v) ==> match spec_field_u64(v, "error"@) {
            None => (r matches Err(e) && e matches ProxerError::Decode(_)),
            Some(error) => (error == 0 ==> r == Ok::<(), ProxerError>(())) && (error != 0 ==> (
            r matches Err(ProxerError::Api { code, message }) && code == error && message@
                == spec_message(spec_field_string(v, "message"@)))),
        },
{
    let v = match parse_body(text) {
        Ok(v) => v,
        Err(e) => {
            return Err(e);
        },
    };
    let error = match field_u64(&v, "error") {
        Some(e) => e,
        None => {
            return Err(ProxerError::Decode("envelope lacks an integer error field".to_owned()));
        },
    };
    check_error(error, field_string(&v, "message"), 0)
}

} // verus!
