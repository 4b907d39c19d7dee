//! Client-side building blocks for the proxer.me web API.
//!
//! The crate builds endpoint URLs and `application/x-www-form-urlencoded`
//! request bodies, and decodes the JSON envelopes that every endpoint
//! returns: a numeric `error` code, an optional `message`, and an optional
//! `data` payload.  The network transport itself is left to the caller,
//! who posts the built body to the built URL and hands the response text
//! back to the decoders here.

use vstd::prelude::*;
use vstd::string::StringExecFns;

pub mod decimal;
pub mod envelope;
pub mod error;
pub mod json;
pub mod manga;
pub mod notification;
pub mod pacing;
pub mod request;

use crate::decimal::{spec_dec, u64_to_dec};
use crate::envelope::{message_view, spec_message, spec_unwrap, unwrap_envelope, Envelope,
    SpecFailure};
use crate::error::ProxerError;
use crate::json::{field_i64, field_string, field_u64, field_value, parse_body, spec_as_array,
    spec_field_i64, spec_field_string, spec_field_u64, spec_field_value, spec_parse,
    value_as_array};

verus! {

/// One news entry of the legacy plain-HTTP news feed.
#[derive(Debug, Clone, PartialEq)]
pub struct NewsNotification {
    /// The news entry's id.
    pub nid: u64,
    /// The publication time as a Unix timestamp.
    pub time: i64,
    /// The entry's description.
    pub description: String,
    /// The id of the entry's image.
    pub image_id: u64,
    /// CSS style directives that position the image.
    pub image_style: String,
    /// The entry's headline.
    pub subject: String,
    /// How often the entry was read.
    pub hits: u64,
    /// The id of the matching forum thread.
    pub thread: u64,
    /// The author's user id.
    pub uid: u64,
    /// The author's user name.
    pub uname: String,
    /// The number of replies to the entry.
    pub posts: u64,
    /// The id of the category the entry belongs to.
    pub catid: u64,
    /// The name of that category.
    pub catname: String,
}

/// The mathematical view of a feed entry.
pub struct NewsNotificationView {
    pub nid: u64,
    pub time: i64,
    pub description: Seq<char>,
    pub image_id: u64,
    pub image_style: Seq<char>,
    pub subject: Seq<char>,
    pub hits: u64,
    pub thread: u64,
    pub uid: u64,
    pub uname: Seq<char>,
    pub posts: u64,
    pub catid: u64,
    pub catname: Seq<char>,
}

impl View for NewsNotification {
    type V = NewsNotificationView;

    open spec fn view(&self) -> NewsNotificationView {
        NewsNotificationView {
            nid: self.nid,
            time: self.time,
            description: self.description@,
            image_id: self.image_id,
            image_style: self.image_style@,
            subject: self.subject@,
            hits: self.hits,
            thread: self.thread,
            uid: self.uid,
            uname: self.uname@,
            posts: self.posts,
            catid: self.catid,
            catname: self.catname@,
        }
    }
}

impl DeepView for NewsNotification {
    type V = NewsNotificationView;

    open spec fn deep_view(&self) -> NewsNotificationView {
        self.view()
    }
}

/// The feed entry a JSON object holds, read off the names: none when
/// any field is missing or has the wrong type.
pub open spec fn spec_news_notification_of(v: serde_json::Value) -> Option<NewsNotificationView> {
    if spec_field_u64(v, "nid"@) is None || spec_field_i64(v, "time"@) is None
        || spec_field_string(v, "description"@) is None || spec_field_u64(v, "image_id"@) is None
        || spec_field_string(v, "image_style"@) is None || spec_field_string(v, "subject"@)
        is None || spec_field_u64(v, "hits"@) is None || spec_field_u64(v, "thread"@) is None
        || spec_field_u64(v, "uid"@) is None || spec_field_string(v, "uname"@) is None
        || spec_field_u64(v, "posts"@) is None || spec_field_u64(v, "catid"@) is None
        || spec_field_string(v, "catname"@) is None {
        None
    } else {
        Some(
            NewsNotificationView {
                nid: spec_field_u64(v, "nid"@).unwrap(),
                time: spec_field_i64(v, "time"@).unwrap(),
                description: spec_field_string(v, "description"@).unwrap(),
                image_id: spec_field_u64(v, "image_id"@).unwrap(),
                image_style: spec_field_string(v, "image_style"@).unwrap(),
                subject: spec_field_string(v, "subject"@).unwrap(),
                hits: spec_field_u64(v, "hits"@).unwrap(),
                thread: spec_field_u64(v, "thread"@).unwrap(),
                uid: spec_field_u64(v, "uid"@).unwrap(),
                uname: spec_field_string(v, "uname"@).unwrap(),
                posts: spec_field_u64(v, "posts"@).unwrap(),
                catid: spec_field_u64(v, "catid"@).unwrap(),
                catname: spec_field_string(v, "catname"@).unwrap(),
            },
        )
    }
}

/// The feed entries an array of JSON objects holds: none when any
/// element fails to decode.
pub open spec fn spec_feed_of(arr: Seq<serde_json::Value>) -> Option<Seq<NewsNotificationView>>
    decreases arr.len(),
{
    if arr.len() == 0 {
        Some(Seq::empty())
    } else {
        match (spec_feed_of(arr.drop_last()), spec_news_notification_of(arr.last())) {
            (Some(rest), Some(n)) => Some(rest.push(n)),
            _ => None,
        }
    }
}

/// One undecodable element makes the whole feed undecodable.
proof fn lemma_feed_of_none(arr: Seq<serde_json::Value>, i: int)
    requires
        0 <= i < arr.len(),
        spec_news_notification_of(arr[i]) is None,
    ensures
        spec_feed_of(arr) is None,
    decreases arr.len(),
{
    if i < arr.len() - 1 {
        lemma_feed_of_none(arr.drop_last(), i);
    }
}

/// The link to a news entry's thumbnail image, built from the news id
/// and the image id.
pub open spec fn spec_image_url(nid: nat, image_id: nat) -> Seq<char> {
    "http://cdn.proxer.me/news/"@ + spec_dec(nid) + "_"@ + spec_dec(image_id) + ".png"@
}

/// The link to the forum thread of a news entry, built from the
/// category id and the thread id.
pub open spec fn spec_news_link(catid: nat, thread: nat) -> Seq<char> {
    "http://proxer.me/forum/"@ + spec_dec(catid) + "/"@ + spec_dec(thread)
}

impl NewsNotification {
    /// Builds the link to the entry's thumbnail image.
    pub fn get_image(&self) -> (r: String)
        ensures
            r@ == spec_image_url(self.nid as nat, self.image_id as nat),
    {
        let mut s = "http://cdn.proxer.me/news/".to_owned();
        let nid_s = u64_to_dec(self.nid);
        s.append(nid_s.as_str());
        s.append("_");
        let image_s = u64_to_dec(self.image_id);
        s.append(image_s.as_str());
        s.append(".png");
        proof {
            assert(s@ =~= spec_image_url(self.nid as nat, self.image_id as nat));
        }
        s
    }

    /// Builds the link to the entry's forum thread.
    pub fn get_news_link(&self) -> (r: String)
        ensures
            r@ == spec_news_link(self.catid as nat, self.thread as nat),
    {
        let mut s = "http://proxer.me/forum/".to_owned();
        let catid_s = u64_to_dec(self.catid);
        s.append(catid_s.as_str());
        s.append("/");
        let thread_s = u64_to_dec(self.thread);
        s.append(thread_s.as_str());
        proof {
            assert(s@ =~= spec_news_link(self.catid as nat, self.thread as nat));
        }
        s
    }
}

/// The flat envelope of the legacy news feed: an error code, an
/// optional message, and the entries in place of a generic payload.
#[derive(Debug, Clone, PartialEq)]
pub struct ProxerNews {
    /// Zero on success.
    pub error: u64,
    /// A message, present in the failure case.
    pub message: Option<String>,
    /// The news entries, present in the success case.
    pub notifications: Option<Vec<NewsNotification>>,
}

/// Checks a feed envelope and unwraps its entries.  The feed's success
/// code is zero; the decision is the one `spec_unwrap` states, with the
/// entries standing in for the payload.
pub fn unwrap_news(news: ProxerNews) -> (r: Result<Vec<NewsNotification>, ProxerError>)
    ensures
        ({
            let model = spec_unwrap(news.error, message_view(news.message), news.notifications, 0);
            match model {
                Ok(d) => r matches Ok(rd) && rd == d,
                Err(SpecFailure::Api { code, message }) => (r matches Err(ProxerError::Api {
                    code: c,
                    message: m,
                }) && c == code && m@ == message),
                Err(SpecFailure::MissingData) => r matches Err(ProxerError::MissingData),
            }
        }),
{
    unwrap_envelope(
        Envelope {
            error: news.error,
            code: None,
            message: news.message,
            data: news.notifications,
        },
        0,
    )
}

/// Reads one feed entry out of a JSON object, exactly when
/// `spec_news_notification_of` has one there.
fn decode_news_notification(v: &serde_json::Value) -> (r: Option<NewsNotification>)
    ensures
        r matches Some(n) ==> spec_news_notification_of(*v) == Some(n@),
        r is None ==> spec_news_notification_of(*v) is None,
{
    let nid = match field_u64(v, "nid") {
        Some(x) => x,
        None => {
            return None;
        },
    };
    let time = match field_i64(v, "time") {
        Some(x) => x,
        None => {
            return None;
        },
    };
    let description = match field_string(v, "description") {
        Some(x) => x,
        None => {
            return None;
        },
    };
    let image_id = match field_u64(v, "image_id") {
        Some(x) => x,
        None => {
            return None;
        },
    };
    let image_style = match field_string(v, "image_style") {
        Some(x) => x,
        None => {
            return None;
        },
    };
    let subject = match field_string(v, "subject") {
        Some(x) => x,
        None => {
            return None;
        },
    };
    let hits = match field_u64(v, "hits") {
        Some(x) => x,
        None => {
            return None;
        },
    };
    let thread = match field_u64(v, "thread") {
        Some(x) => x,
        None => {
            return None;
        },
    };
    let uid = match field_u64(v, "uid") {
        Some(x) => x,
        None => {
            return None;
        },
    };
    let uname = match field_string(v, "uname") {
        Some(x) => x,
        None => {
            return None;
        },
    };
    let posts = match field_u64(v, "posts") {
        Some(x) => x,
        None => {
            return None;
        },
    };
    let catid = match field_u64(v, "catid") {
        Some(x) => x,
        None => {
            return None;
        },
    };
    let catname = match field_string(v, "catname") {
        Some(x) => x,
        None => {
            return None;
        },
    };
    Some(
        NewsNotification {
            nid,
            time,
            description,
            image_id,
            image_style,
            subject,
            hits,
            thread,
            uid,
            uname,
            posts,
            catid,
            catname,
        },
    )
}

/// Decodes the legacy news feed's response body into its entries: the
/// flat envelope is read field by field and judged by `unwrap_news`.
/// Unparsable text, a missing integer `error` field and a malformed
/// entry list are decode failures; otherwise a non-zero error code is
/// an api failure with the feed's message, an absent list under a
/// success code is a protocol violation, and a present list is
/// returned, decoded, in order.
#[verifier::loop_isolation(false)]
pub fn decode_news_feed_response(text: &str) -> (r: Result<Vec<NewsNotification>, ProxerError>)
    ensures
        spec_parse(text@) is None ==> (r matches Err(e) && e matches ProxerError::Decode(_)),
        spec_parse(text@) matches Some(v) ==> match spec_field_u64(v, "error"@) {
            None => (r matches Err(e) && e matches ProxerError::Decode(_)),
            Some(error) => match spec_field_value(v, "notifications"@) {
                None => (error != 0 ==> (r matches Err(ProxerError::Api { code, message })
                    && code == error && message@ == spec_message(
                    spec_field_string(v, "message"@),
                ))) && (error == 0 ==> r matches Err(ProxerError::MissingData)),
                Some(nv) => match spec_as_array(nv) {
                    None => (r matches Err(e) && e matches ProxerError::Decode(_)),
                    Some(elems) => match spec_feed_of(elems) {
                        None => (r matches Err(e) && e matches ProxerError::Decode(_)),
                        Some(views) => (error != 0 ==> (r matches Err(ProxerError::Api {
                            code,
                            message,
                        }) && code == error && message@ == spec_message(
                            spec_field_string(v, "message"@),
                        ))) && (error == 0 ==> (r matches Ok(entries) && entries.deep_view()
                            == views)),
                    },
                },
            },
        },
{
    let v = match parse_body(text) {
        Ok(v) => v,
        Err(e) => {
            return Err(e);
        },
    };
    let error = match field_u64(&v, "error") {
        Some(e) => e,
        None => {
            return Err(ProxerError::Decode("envelope lacks an integer error field".to_owned()));
        },
    };
    let message = field_string(&v, "message");
    proof {
        assert(message_view(message) == spec_field_string(v, "message"@));
    }
    let notifications = match field_value(&v, "notifications") {
        None => None,
        Some(nv) => {
            let arr = match value_as_array(nv) {
                Some(a) => a,
                None => {
                    return Err(ProxerError::Decode("news feed is not an array".to_owned()));
                },
            };
            let mut entries: Vec<NewsNotification> = Vec::new();
            let mut i: usize = 0;
            while i < arr.len()
                invariant
                    i <= arr.len(),
                    spec_feed_of(arr@.take(i as int)) == Some(entries.deep_view()),
                decreases arr.len() - i,
            {
                match decode_news_notification(&arr[i]) {
                    Some(n) => {
                        let ghost prev = entries.deep_view();
                        entries.push(n);
                        proof {
                            assert(arr@.take(i + 1 as int).drop_last() =~= arr@.take(i as int));
                            assert(entries.deep_view() =~= prev.push(n@));
                        }
                    },
                    None => {
                        proof {
                            lemma_feed_of_none(arr@, i as int);
                        }
                        return Err(
                            ProxerError::Decode("news feed entry has the wrong shape".to_owned()),
                        );
                    },
                }
                i = i + 1;
            }
            proof {
                assert(arr@.take(arr@.len() as int) =~= arr@);
            }
            Some(entries)
        },
    };
    unwrap_news(ProxerNews { error, message, notifications })
}

} // verus!
