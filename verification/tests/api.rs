use proxer::decimal::u64_to_dec;
use proxer::envelope::{unwrap_envelope, check_error, Envelope};
use proxer::error::ProxerError;
use proxer::manga::{decode_chapter_response, Chapter, Page};
use proxer::notification::{
    decode_count_response, decode_empty_response, decode_news_list_response,
};
use proxer::pacing::wait_before_request;
use proxer::request::{api_url, chapter_body, delete_body, news_body, news_feed_url};
use proxer::{decode_news_feed_response, unwrap_news, NewsNotification, ProxerNews};

fn success_envelope(data: Option<u64>) -> Envelope<u64> {
    Envelope { error: 0, code: None, message: None, data }
}

#[test]
fn decimal_renders_exact_digits() {
    assert_eq!(u64_to_dec(0), "0");
    assert_eq!(u64_to_dec(9), "9");
    assert_eq!(u64_to_dec(10), "10");
    assert_eq!(u64_to_dec(1234567890), "1234567890");
    assert_eq!(u64_to_dec(u64::MAX), "18446744073709551615");
}

#[test]
fn envelope_success_round_trip() {
    let env = success_envelope(Some(42));
    assert_eq!(unwrap_envelope(env, 0), Ok(42));
}

#[test]
fn envelope_round_trip_keeps_payload_unchanged() {
    let payload = vec![String::from("a"), String::from("b")];
    let env = Envelope { error: 7, code: Some(7), message: None, data: Some(payload.clone()) };
    assert_eq!(unwrap_envelope(env, 7), Ok(payload));
}

#[test]
fn envelope_failure_carries_message() {
    let env = Envelope::<u64> {
        error: 3,
        code: None,
        message: Some(String::from("invalid token")),
        data: None,
    };
    assert_eq!(
        unwrap_envelope(env, 0),
        Err(ProxerError::Api { code: 3, message: String::from("invalid token") })
    );
}

#[test]
fn envelope_failure_without_message_uses_default() {
    let env = Envelope::<u64> { error: 1, code: None, message: None, data: Some(5) };
    assert_eq!(unwrap_envelope(env, 0), Err(ProxerError::Api { code: 1, message: String::new() }));
}

#[test]
fn envelope_missing_data_is_reported() {
    let env = success_envelope(None);
    assert_eq!(unwrap_envelope(env, 0), Err(ProxerError::MissingData));
}

#[test]
fn check_error_matches_codec() {
    assert_eq!(check_error(0, None, 0), Ok(()));
    assert_eq!(
        check_error(2, Some(String::from("down")), 0),
        Err(ProxerError::Api { code: 2, message: String::from("down") })
    );
}

#[test]
fn url_is_deterministic() {
    assert_eq!(api_url("manga", "chapter"), "https://proxer.me/api/v1/manga/chapter");
    assert_eq!(api_url("manga", "chapter"), "https://proxer.me/api/v1/manga/chapter");
    assert_eq!(api_url("notifications", "news"), "https://proxer.me/api/v1/notifications/news");
    assert_eq!(
        news_feed_url(),
        "http://proxer.me/notifications?format=json&s=news&p=1"
    );
}

#[test]
fn chapter_body_includes_exactly_present_parameters() {
    assert_eq!(chapter_body(123, 2, Some("en")), "id=123&episode=2&language=en");
    assert_eq!(chapter_body(0, 0, Some("de")), "id=0&episode=0&language=de");
    assert_eq!(chapter_body(123, 2, None), "id=123&episode=2");
}

#[test]
fn news_body_includes_exactly_present_parameters() {
    assert_eq!(news_body(None, None), "");
    assert_eq!(news_body(Some(1), None), "p=1");
    assert_eq!(news_body(None, Some(15)), "limit=15");
    assert_eq!(news_body(Some(0), Some(15)), "p=0&limit=15");
}

#[test]
fn delete_body_includes_exactly_present_parameters() {
    assert_eq!(delete_body(None), "");
    assert_eq!(delete_body(Some(77)), "nid=77");
}

#[test]
fn image_and_forum_links_are_exact() {
    let entry = NewsNotification {
        nid: 1,
        time: 1000,
        description: String::from("d"),
        image_id: 4,
        image_style: String::new(),
        subject: String::from("s"),
        hits: 0,
        thread: 9,
        uid: 2,
        uname: String::from("u"),
        posts: 0,
        catid: 3,
        catname: String::from("c"),
    };
    assert_eq!(entry.get_image(), "http://cdn.proxer.me/news/1_4.png");
    assert_eq!(entry.get_news_link(), "http://proxer.me/forum/3/9");
}

#[test]
fn chapter_link_is_exact() {
    let chapter = Chapter {
        cid: 11,
        eid: 22,
        title: String::from("t"),
        uploader: 1,
        username: String::from("u"),
        timestamp: 0,
        tid: 0,
        tname: String::new(),
        server: 3,
        pages: Vec::new(),
    };
    assert_eq!(chapter.get_chapter_link(), "https://manga3.proxer.me/f/22/11/");
}

#[test]
fn unwrap_news_success_and_failure() {
    let entry = NewsNotification {
        nid: 5,
        time: 0,
        description: String::new(),
        image_id: 0,
        image_style: String::new(),
        subject: String::new(),
        hits: 0,
        thread: 0,
        uid: 0,
        uname: String::new(),
        posts: 0,
        catid: 0,
        catname: String::new(),
    };
    let ok = ProxerNews { error: 0, message: None, notifications: Some(vec![entry.clone()]) };
    assert_eq!(unwrap_news(ok), Ok(vec![entry]));
    let failed = ProxerNews {
        error: 1,
        message: Some(String::from("offline")),
        notifications: None,
    };
    assert_eq!(
        unwrap_news(failed),
        Err(ProxerError::Api { code: 1, message: String::from("offline") })
    );
    let missing = ProxerNews { error: 0, message: None, notifications: None };
    assert_eq!(unwrap_news(missing), Err(ProxerError::MissingData));
}

const NEWS_ENTRY: &str = r#"{
    "nid": 1, "time": 1000, "mid": 8, "description": "a news text",
    "image_id": "553_50bb", "image_style": "top:left", "subject": "headline",
    "hits": 12, "thread": 8, "uid": 3, "uname": "author", "posts": 2,
    "catid": 54, "catname": "Anime"
}"#;

#[test]
fn decode_news_scenario() {
    let body = format!(r#"{{"error":0,"data":[{}]}}"#, NEWS_ENTRY);
    let entries = decode_news_list_response(&body).unwrap();
    assert_eq!(entries.len(), 1);
    assert_eq!(entries[0].nid, 1);
    assert_eq!(entries[0].time, 1000);
    assert_eq!(entries[0].image_id, "553_50bb");
    assert_eq!(entries[0].catname, "Anime");
}

#[test]
fn decode_api_error_scenario() {
    let r = decode_news_list_response(r#"{"error":1,"message":"invalid token"}"#);
    assert_eq!(r, Err(ProxerError::Api { code: 1, message: String::from("invalid token") }));
}

#[test]
fn decode_missing_data_scenario() {
    let r = decode_news_list_response(r#"{"error":0}"#);
    assert_eq!(r, Err(ProxerError::MissingData));
    let r2 = decode_news_list_response(r#"{"error":0,"data":null}"#);
    assert_eq!(r2, Err(ProxerError::MissingData));
}

#[test]
fn decode_rejects_invalid_json() {
    let r = decode_news_list_response("no json at all");
    assert!(matches!(r, Err(ProxerError::Decode(_))));
}

#[test]
fn decode_rejects_envelope_without_error_field() {
    let r = decode_news_list_response(r#"{"data":[]}"#);
    assert!(matches!(r, Err(ProxerError::Decode(_))));
}

#[test]
fn decode_rejects_malformed_entry() {
    let r = decode_news_list_response(r#"{"error":0,"data":[{"nid":"not a number"}]}"#);
    assert!(matches!(r, Err(ProxerError::Decode(_))));
}

#[test]
fn decode_chapter_scenario() {
    let body = r#"{
        "error": 0,
        "data": [{
            "cid": 100, "eid": 200, "title": "Chapter 1", "uploader": 7,
            "username": "scan", "timestamp": 1485372000, "tid": 4,
            "tname": "group", "server": 2,
            "pages": [["p1.jpg", 1400, 900], ["p2.jpg", 1401, 901]]
        }]
    }"#;
    let chapters = decode_chapter_response(body).unwrap();
    assert_eq!(chapters.len(), 1);
    let c = &chapters[0];
    assert_eq!(c.cid, 100);
    assert_eq!(c.eid, 200);
    assert_eq!(c.server, 2);
    assert_eq!(
        c.pages,
        vec![
            Page { name: String::from("p1.jpg"), height: 1400, width: 900 },
            Page { name: String::from("p2.jpg"), height: 1401, width: 901 },
        ]
    );
    assert_eq!(c.get_chapter_link(), "https://manga2.proxer.me/f/200/100/");
}

#[test]
fn decode_chapter_rejects_short_page() {
    let body = r#"{"error":0,"data":[{
        "cid": 1, "eid": 2, "title": "t", "uploader": 3, "username": "u",
        "timestamp": 4, "tid": 5, "tname": "n", "server": 6,
        "pages": [["p1.jpg", 1400]]
    }]}"#;
    let r = decode_chapter_response(body);
    assert!(matches!(r, Err(ProxerError::Decode(_))));
}

#[test]
fn decode_count_scenario() {
    let r = decode_count_response(r#"{"error":0,"data":"0#1#2#3#4#5"}"#);
    assert_eq!(r, Ok(String::from("0#1#2#3#4#5")));
    let wrong = decode_count_response(r#"{"error":0,"data":[1,2]}"#);
    assert!(matches!(wrong, Err(ProxerError::Decode(_))));
}

#[test]
fn decode_empty_scenario() {
    assert_eq!(decode_empty_response(r#"{"error":0}"#), Ok(()));
    assert_eq!(
        decode_empty_response(r#"{"error":3,"message":"no such notification"}"#),
        Err(ProxerError::Api { code: 3, message: String::from("no such notification") })
    );
}

#[test]
fn decode_news_feed_scenario() {
    let body = r#"{"error":0,"notifications":[{
            "nid": 1, "time": 1000, "description": "a news text",
            "image_id": 553, "image_style": "top:left", "subject": "headline",
            "hits": 12, "thread": 8, "uid": 3, "uname": "author", "posts": 2,
            "catid": 54, "catname": "Anime"
        }]}"#;
    let entries = decode_news_feed_response(body).unwrap();
    assert_eq!(entries.len(), 1);
    assert_eq!(entries[0].nid, 1);
    assert_eq!(entries[0].get_image(), "http://cdn.proxer.me/news/1_553.png");
    assert_eq!(entries[0].get_news_link(), "http://proxer.me/forum/54/8");
}

#[test]
fn pacing_waits_exactly_the_remainder() {
    assert_eq!(wait_before_request(500, None, 12345), 0);
    assert_eq!(wait_before_request(500, Some(1000), 1200), 300);
    assert_eq!(wait_before_request(500, Some(1000), 1500), 0);
    assert_eq!(wait_before_request(500, Some(1000), 9999), 0);
    assert_eq!(wait_before_request(500, Some(2000), 1000), 500);
}

#[test]
fn decode_news_feed_failure() {
    let r = decode_news_feed_response(r#"{"error":1,"message":"maintenance"}"#);
    assert_eq!(r, Err(ProxerError::Api { code: 1, message: String::from("maintenance") }));
    let missing = decode_news_feed_response(r#"{"error":0}"#);
    assert_eq!(missing, Err(ProxerError::MissingData));
}
