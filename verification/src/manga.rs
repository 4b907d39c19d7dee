//! Manga endpoints: chapters and their pages.

use vstd::prelude::*;
use vstd::string::StringExecFns;

use crate::decimal::{spec_dec, u64_to_dec};
use crate::envelope::{spec_unwrap, unwrap_envelope, SpecFailure};
use crate::error::ProxerError;
use crate::json::{field_array, field_i64, field_string, field_u64, parse_body, read_envelope,
    spec_as_array, spec_as_i64, spec_as_string, spec_field_array, spec_field_i64,
    spec_field_string, spec_field_u64, spec_response, value_as_array, value_as_i64,
    value_as_string, ResponseModel};

verus! {

/// One page of a chapter: its file name on the image server and its
/// pixel dimensions.
#[derive(Debug, Clone, PartialEq)]
pub struct Page {
    /// The page's file name.
    pub name: String,
    /// The page's height.
    pub height: i32,
    /// The page's width.
    pub width: i32,
}

/// The mathematical view of a page.
pub struct PageView {
    pub name: Seq<char>,
    pub height: i32,
    pub width: i32,
}

impl View for Page {
    type V = PageView;

    open spec fn view(&self) -> PageView {
        PageView { name: self.name@, height: self.height, width: self.width }
    }
}

impl DeepView for Page {
    type V = PageView;

    open spec fn deep_view(&self) -> PageView {
        self.view()
    }
}

/// One chapter of a manga, as the chapter endpoint returns it.
#[derive(Debug, Clone, PartialEq)]
pub struct Chapter {
    /// The chapter's id.
    pub cid: u64,
    /// The entry's id.
    pub eid: u64,
    /// The chapter's title.
    pub title: String,
    /// The uploader's id.
    pub uploader: u64,
    /// The uploader's name.
    pub username: String,
    /// The upload time as a Unix timestamp.
    pub timestamp: i64,
    /// The id of the assigned scan group.
    pub tid: u64,
    /// The name of the assigned scan group.
    pub tname: String,
    /// The image server that holds the pages.
    pub server: u32,
    /// The chapter's pages, in reading order.
    pub pages: Vec<Page>,
}

/// The mathematical view of a chapter.
pub struct ChapterView {
    pub cid: u64,
    pub eid: u64,
    pub title: Seq<char>,
    pub uploader: u64,
    pub username: Seq<char>,
    pub timestamp: i64,
    pub tid: u64,
    pub tname: Seq<char>,
    pub server: u32,
    pub pages: Seq<PageView>,
}

impl View for Chapter {
    type V = ChapterView;

    open spec fn view(&self) -> ChapterView {
        ChapterView {
            cid: self.cid,
            eid: self.eid,
            title: self.title@,
            uploader: self.uploader,
            username: self.username@,
            timestamp: self.timestamp,
            tid: self.tid,
            tname: self.tname@,
            server: self.server,
            pages: self.pages.deep_view(),
        }
    }
}

impl DeepView for Chapter {
    type V = ChapterView;

    open spec fn deep_view(&self) -> ChapterView {
        self.view()
    }
}

/// The link under which a chapter's pages live: one page is addressed
/// by appending its file name.
pub open spec fn spec_chapter_link(server: nat, eid: nat, cid: nat) -> Seq<char> {
    "https://manga"@ + spec_dec(server) + ".proxer.me/f/"@ + spec_dec(eid) + "/"@ + spec_dec(cid)
        + "/"@
}

impl Chapter {
    /// Builds the link to the chapter on its image server; appending a
    /// page's file name yields the link to that page.
    pub fn get_chapter_link(&self) -> (r: String)
        ensures
            r@ == spec_chapter_link(self.server as nat, self.eid as nat, self.cid as nat),
    {
        let mut s = "https://manga".to_owned();
        let server_s = u64_to_dec(self.server as u64);
        s.append(server_s.as_str());
        s.append(".proxer.me/f/");
        let eid_s = u64_to_dec(self.eid);
        s.append(eid_s.as_str());
        s.append("/");
        let cid_s = u64_to_dec(self.cid);
        s.append(cid_s.as_str());
        s.append("/");
        proof {
            assert(s@ =~= spec_chapter_link(self.server as nat, self.eid as nat, self.cid as nat));
        }
        s
    }
}

/// The signed integer as an `i32`: some exactly when the value fits.
fn i64_to_i32(x: i64) -> (r: Option<i32>)
    ensures
        r is Some <==> i32::MIN as i64 <= x <= i32::MAX as i64,
        r matches Some(v) ==> v == x,
{
    if i32::MIN as i64 <= x && x <= i32::MAX as i64 {
        Some(x as i32)
    } else {
        None
    }
}

/// The page a JSON value holds, read off the names: a three-element
/// array of the file name and two dimensions that fit in an `i32`.
pub open spec fn spec_page_of(v: serde_json::Value) -> Option<PageView> {
    match spec_as_array(v) {
        None => None,
        Some(arr) => if arr.len() != 3 {
            None
        } else if spec_as_string(arr[0]) is None || spec_as_i64(arr[1]) is None || spec_as_i64(
            arr[2],
        ) is None {
            None
        } else {
            let h = spec_as_i64(arr[1]).unwrap();
            let w = spec_as_i64(arr[2]).unwrap();
            if i32::MIN as i64 <= h <= i32::MAX as i64 && i32::MIN as i64 <= w <= i32::MAX as i64 {
                Some(
                    PageView {
                        name: spec_as_string(arr[0]).unwrap(),
                        height: h as i32,
                        width: w as i32,
                    },
                )
            } else {
                None
            }
        },
    }
}

/// The pages an array of JSON values holds: none when any element
/// fails to decode.
pub open spec fn spec_pages_of(arr: Seq<serde_json::Value>) -> Option<Seq<PageView>>
    decreases arr.len(),
{
    if arr.len() == 0 {
        Some(Seq::empty())
    } else {
        match (spec_pages_of(arr.drop_last()), spec_page_of(arr.last())) {
            (Some(rest), Some(p)) => Some(rest.push(p)),
            _ => None,
        }
    }
}

/// One undecodable element makes the whole page array undecodable.
proof fn lemma_pages_of_none(arr: Seq<serde_json::Value>, i: int)
    requires
        0 <= i < arr.len(),
        spec_page_of(arr[i]) is None,
    ensures
        spec_pages_of(arr) is None,
    decreases arr.len(),
{
    if i < arr.len() - 1 {
        lemma_pages_of_none(arr.drop_last(), i);
    }
}

/// The chapter a JSON object holds, read off the names: none when any
/// field is missing or has the wrong type.
pub open spec fn spec_chapter_of(v: serde_json::Value) -> Option<ChapterView> {
    if spec_field_u64(v, "cid"@) is None || spec_field_u64(v, "eid"@) is None || spec_field_string(
        v,
        "title"@,
    ) is None || spec_field_u64(v, "uploader"@) is None || spec_field_string(v, "username"@)
        is None || spec_field_i64(v, "timestamp"@) is None || spec_field_u64(v, "tid"@) is None
        || spec_field_string(v, "tname"@) is None || spec_field_u64(v, "server"@) is None
        || spec_field_array(v, "pages"@) is None {
        None
    } else if spec_field_u64(v, "server"@).unwrap() > u32::MAX as u64 {
        None
    } else {
        match spec_pages_of(spec_field_array(v, "pages"@).unwrap()) {
            None => None,
            Some(pages) => Some(
                ChapterView {
                    cid: spec_field_u64(v, "cid"@).unwrap(),
                    eid: spec_field_u64(v, "eid"@).unwrap(),
                    title: spec_field_string(v, "title"@).unwrap(),
                    uploader: spec_field_u64(v, "uploader"@).unwrap(),
                    username: spec_field_string(v, "username"@).unwrap(),
                    timestamp: spec_field_i64(v, "timestamp"@).unwrap(),
                    tid: spec_field_u64(v, "tid"@).unwrap(),
                    tname: spec_field_string(v, "tname"@).unwrap(),
                    server: spec_field_u64(v, "server"@).unwrap() as u32,
                    pages,
                },
            ),
        }
    }
}

/// The chapters an array of JSON objects holds: none when any element
/// fails to decode.
pub open spec fn spec_chapters_of(arr: Seq<serde_json::Value>) -> Option<Seq<ChapterView>>
    decreases arr.len(),
{
    if arr.len() == 0 {
        Some(Seq::empty())
    } else {
        match (spec_chapters_of(arr.drop_last()), spec_chapter_of(arr.last())) {
            (Some(rest), Some(c)) => Some(rest.push(c)),
            _ => None,
        }
    }
}

/// One undecodable element makes the whole chapter array undecodable.
proof fn lemma_chapters_of_none(arr: Seq<serde_json::Value>, i: int)
    requires
        0 <= i < arr.len(),
        spec_chapter_of(arr[i]) is None,
    ensures
        spec_chapters_of(arr) is None,
    decreases arr.len(),
{
    if i < arr.len() - 1 {
        lemma_chapters_of_none(arr.drop_last(), i);
    }
}

/// Reads one page out of its wire shape, exactly when `spec_page_of`
/// has one there.
fn decode_page(v: &serde_json::Value) -> (r: Option<Page>)
    ensures
        r matches Some(p) ==> spec_page_of(*v) == Some(p@),
        r is None ==> spec_page_of(*v) is None,
{
    let arr = match value_as_array(v) {
        Some(a) => a,
        None => {
            return None;
        },
    };
    if arr.len() != 3 {
        return None;
    }
    let name = match value_as_string(&arr[0]) {
        Some(n) => n,
        None => {
            return None;
        },
    };
    let height = match value_as_i64(&arr[1]) {
        Some(h) => match i64_to_i32(h) {
            Some(h32) => h32,
            None => {
                return None;
            },
        },
        None => {
            return None;
        },
    };
    let width = match value_as_i64(&arr[2]) {
        Some(w) => match i64_to_i32(w) {
            Some(w32) => w32,
            None => {
                return None;
            },
        },
        None => {
            return None;
        },
    };
    Some(Page { name, height, width })
}

/// Reads one chapter out of a JSON object, exactly when
/// `spec_chapter_of` has one there.
#[verifier::loop_isolation(false)]
fn decode_chapter(v: &serde_json::Value) -> (r: Option<Chapter>)
    ensures
        r matches Some(c) ==> spec_chapter_of(*v) == Some(c.deep_view()),
        r is None ==> spec_chapter_of(*v) is None,
{
    let cid = match field_u64(v, "cid") {
        Some(x) => x,
        None => {
            return None;
        },
    };
    let eid = match field_u64(v, "eid") {
        Some(x) => x,
        None => {
            return None;
        },
    };
    let title = match field_string(v, "title") {
        Some(x) => x,
        None => {
            return None;
        },
    };
    let uploader = match field_u64(v, "uploader") {
        Some(x) => x,
        None => {
            return None;
        },
    };
    let username = match field_string(v, "username") {
        Some(x) => x,
        None => {
            return None;
        },
    };
    let timestamp = match field_i64(v, "timestamp") {
        Some(x) => x,
        None => {
            return None;
        },
    };
    let tid = match field_u64(v, "tid") {
        Some(x) => x,
        None => {
            return None;
        },
    };
    let tname = match field_string(v, "tname") {
        Some(x) => x,
        None => {
            return None;
        },
    };
    let server = match field_u64(v, "server") {
        Some(x) => if x <= u32::MAX as u64 {
            x as u32
        } else {
            return None;
        },
        None => {
            return None;
        },
    };
    let pages_value = match field_array(v, "pages") {
        Some(a) => a,
        None => {
            return None;
        },
    };
    let mut pages: Vec<Page> = Vec::new();
    let mut i: usize = 0;
    while i < pages_value.len()
        invariant
            i <= pages_value.len(),
            spec_pages_of(pages_value@.take(i as int)) == Some(pages.deep_view()),
        decreases pages_value.len() - i,
    {
        match decode_page(&pages_value[i]) {
            Some(p) => {
                let ghost prev = pages.deep_view();
                pages.push(p);
                proof {
                    assert(pages_value@.take(i + 1 as int).drop_last() =~= pages_value@.take(
                        i as int,
                    ));
                    assert(pages.deep_view() =~= prev.push(p@));
                }
            },
            None => {
                proof {
                    lemma_pages_of_none(pages_value@, i as int);
                }
                return None;
            },
        }
        i = i + 1;
    }
    proof {
        assert(pages_value@.take(pages_value@.len() as int) =~= pages_value@);
    }
    Some(Chapter { cid, eid, title, uploader, username, timestamp, tid, tname, server, pages })
}

/// Decodes the chapter endpoint's response body.  The decision follows
/// `spec_response`: unparsable text and a malformed envelope are
/// decode failures, a non-zero error code is an api failure with the
/// envelope's message, a missing payload is a protocol violation, and
/// a payload must be an array of chapters, every one of which is
/// returned, decoded, in order.
#[verifier::loop_isolation(false)]
pub fn decode_chapter_response(text: &str) -> (r: Result<Vec<Chapter>, ProxerError>)
    ensures
        ({
            match spec_response(text@) {
                ResponseModel::Unparsed => (r matches Err(e) && e matches ProxerError::Decode(_)),
                ResponseModel::BadEnvelope => (r matches Err(e) && e matches ProxerError::Decode(
                    _,
                )),
                ResponseModel::Failure { code, message } => (r matches Err(ProxerError::Api {
                    code: c,
                    message: m,
                }) && c == code && m@ == message),
                ResponseModel::Missing => r matches Err(ProxerError::MissingData),
                ResponseModel::Payload { data } => match spec_as_array(data) {
                    None => (r matches Err(e) && e matches ProxerError::Decode(_)),
                    Some(elems) => match spec_chapters_of(elems) {
                        Some(views) => (r matches Ok(chapters) && chapters.deep_view() == views),
                        None => (r matches Err(e) && e matches ProxerError::Decode(_)),
                    },
                },
            }
        }),
{
    let v = match parse_body(text) {
        Ok(v) => v,
        Err(e) => {
            return Err(e);
        },
    };
    let env = match read_envelope(&v) {
        Ok(env) => env,
        Err(e) => {
            return Err(e);
        },
    };
    let data = match unwrap_envelope(env, 0) {
        Ok(d) => d,
        Err(e) => {
            return Err(e);
        },
    };
    proof {
        let m = crate::json::spec_envelope_of(v).unwrap();
        assert(env.error == 0);
        assert(env.data is Some);
        assert(m.2 == Some(*data));
        assert(spec_unwrap(m.0, m.1, m.2, 0u64) == Ok::<serde_json::Value, SpecFailure>(*data));
    }
    let arr = match value_as_array(data) {
        Some(a) => a,
        None => {
            return Err(ProxerError::Decode("chapter payload is not an array".to_owned()));
        },
    };
    let mut chapters: Vec<Chapter> = Vec::new();
    let mut i: usize = 0;
    while i < arr.len()
        invariant
            i <= arr.len(),
            spec_chapters_of(arr@.take(i as int)) == Some(chapters.deep_view()),
        decreases arr.len() - i,
    {
        match decode_chapter(&arr[i]) {
            Some(c) => {
                let ghost prev = chapters.deep_view();
                chapters.push(c);
                proof {
                    assert(arr@.take(i + 1 as int).drop_last() =~= arr@.take(i as int));
                    assert(chapters.deep_view() =~= prev.push(c.deep_view()));
                }
            },
            None => {
                proof {
                    lemma_chapters_of_none(arr@, i as int);
                }
                return Err(ProxerError::Decode("chapter entry has the wrong shape".to_owned()));
            },
        }
        i = i + 1;
    }
    proof {
        assert(arr@.take(arr@.len() as int) =~= arr@);
    }
    Ok(chapters)
}

} // verus!
