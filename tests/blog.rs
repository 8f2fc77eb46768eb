use blog::codec::{decode_body, encode_body, DecodeError};
use blog::date::Date;
use blog::handlers::{blog, get_blogpost, h404, index, post_id, LookupError, StoreError};
use blog::logging::LogLevel;
use blog::post::{group_posts, BlogCollection, BlogList, BlogPostDetail, BlogPostSummary};
use blog::view::{render_error, render_not_found, render_post_detail, render_post_list};

fn date(y: i32, m: u32, d: u32) -> Date {
    Date::new(y, m, d).unwrap()
}

fn summary(id: i32, title: &str, lang: &str, desc: &str) -> BlogPostSummary {
    BlogPostSummary {
        id,
        title: title.to_string(),
        lang: lang.to_string(),
        short_desc: desc.to_string(),
        date: date(2024, 1, 1),
    }
}

fn detail(title: &str, body: &str) -> BlogPostDetail {
    BlogPostDetail { title: title.to_string(), body: body.to_string(), date: date(2024, 1, 1) }
}

fn section<'a>(html: &'a str, open: &str, close: &str) -> &'a str {
    let start = html.find(open).unwrap() + open.len();
    let end = start + html[start..].find(close).unwrap();
    &html[start..end]
}

fn english_section(html: &str) -> &str {
    section(html, "<h2>English</h2>", "</section>")
}

fn other_section(html: &str) -> &str {
    section(html, "<h2>Norsk</h2>", "</section>")
}

#[test]
fn body_round_trip() {
    for text in ["", "<p>Hi</p>", "Hei på deg", "emoji \u{1F600} and \"quotes\"", "a\nb\tc"] {
        let stored = encode_body(text);
        assert_eq!(decode_body(&stored), Ok(text.to_string()));
    }
}

#[test]
fn encode_body_writes_base64() {
    assert_eq!(encode_body("<p>Hi</p>"), "PHA+SGk8L3A+");
    assert_eq!(encode_body("Hei på deg"), "SGVpIHDDpSBkZWc=");
    assert_eq!(encode_body(""), "");
}

#[test]
fn decode_body_reads_base64() {
    assert_eq!(decode_body("PHA+SGk8L3A+"), Ok("<p>Hi</p>".to_string()));
    assert_eq!(decode_body("SGVpIHDDpSBkZWc="), Ok("Hei på deg".to_string()));
}

#[test]
fn decode_body_rejects_non_base64() {
    assert_eq!(decode_body("not base64!"), Err(DecodeError::InvalidBase64));
    assert_eq!(decode_body("PHA+SGk8L3A+*"), Err(DecodeError::InvalidBase64));
}

#[test]
fn decode_body_rejects_non_utf8() {
    assert_eq!(decode_body("//4="), Err(DecodeError::InvalidUtf8));
}

#[test]
fn post_id_parses_positive_ids() {
    assert_eq!(post_id("5"), Some(5));
    assert_eq!(post_id("+7"), Some(7));
    assert_eq!(post_id("00012"), Some(12));
    assert_eq!(post_id("2147483647"), Some(2147483647));
}

#[test]
fn post_id_rejects_other_segments() {
    assert_eq!(post_id("abc"), None);
    assert_eq!(post_id(""), None);
    assert_eq!(post_id("+"), None);
    assert_eq!(post_id("0"), None);
    assert_eq!(post_id("-3"), None);
    assert_eq!(post_id("12a"), None);
    assert_eq!(post_id("1 2"), None);
    assert_eq!(post_id("2147483648"), None);
    assert_eq!(post_id("99999999999999999999"), None);
}

#[test]
fn dates_follow_the_calendar() {
    assert!(Date::new(2024, 2, 29).is_some());
    assert!(Date::new(2000, 2, 29).is_some());
    assert!(Date::new(2023, 2, 29).is_none());
    assert!(Date::new(1900, 2, 29).is_none());
    assert!(Date::new(2024, 4, 31).is_none());
    assert!(Date::new(2024, 13, 1).is_none());
    assert!(Date::new(2024, 1, 0).is_none());
    assert!(Date::new(262143, 1, 1).is_none());
    assert!(Date::new(262142, 12, 31).is_some());
    assert!(Date::new(-262143, 1, 1).is_some());
    assert!(Date::new(-262144, 1, 1).is_none());
    let d = date(2024, 3, 9);
    assert_eq!((d.year(), d.month(), d.day()), (2024, 3, 9));
}

#[test]
fn date_text_is_iso() {
    assert_eq!(date(2024, 1, 1).text(), "2024-01-01");
    assert_eq!(date(7, 12, 31).text(), "0007-12-31");
    assert_eq!(date(10000, 12, 31).text(), "+10000-12-31");
    assert_eq!(date(-1, 1, 1).text(), "-0001-01-01");
}

#[test]
fn sections_partition_posts() {
    let rows = vec![
        summary(1, "One", "en", "first"),
        summary(2, "To", "no", "andre"),
        summary(3, "Three", "en", "third"),
        summary(4, "Fire", "EN", "fjerde"),
        summary(5, "Fem", "en-GB", "femte"),
    ];
    let c: BlogCollection = group_posts(&rows);
    let english: Vec<i32> = c.english.iter().map(|e| e.id).collect();
    let other: Vec<i32> = c.norwegian.iter().map(|e| e.id).collect();
    assert_eq!(english, vec![1, 3]);
    assert_eq!(other, vec![2, 4, 5]);
    assert_eq!(c.english[1].title, "Three");
    assert_eq!(c.english[1].description, "third");

    let page = blog(Ok(rows));
    assert_eq!(page.status, 200);
    let en = english_section(&page.body).to_string();
    let no = other_section(&page.body).to_string();
    assert!(en.contains("One") && en.contains("Three"));
    assert!(!en.contains("To") && !en.contains("Fire") && !en.contains("Fem"));
    assert!(no.contains("To") && no.contains("Fire") && no.contains("Fem"));
    assert!(!no.contains("One") && !no.contains("Three"));
    assert!(en.find("One").unwrap() < en.find("Three").unwrap());
}

#[test]
fn english_post_is_listed_in_english_section() {
    let page = blog(Ok(vec![summary(1, "Hello", "en", "World")]));
    assert_eq!(page.status, 200);
    let en = english_section(&page.body);
    assert!(en.contains("Hello"));
    assert!(en.contains("World"));
    assert!(en.contains("2024-01-01"));
    assert!(en.contains("href=\"/post/1\""));
    assert!(!other_section(&page.body).contains("Hello"));
}

#[test]
fn empty_listing_has_both_sections() {
    let page = blog(Ok(vec![]));
    assert_eq!(page.status, 200);
    assert!(!english_section(&page.body).contains("<li>"));
    assert!(!other_section(&page.body).contains("<li>"));
}

#[test]
fn listing_entry_html_is_exact() {
    let c = BlogCollection {
        english: vec![BlogList {
            id: 5,
            title: "Hello".to_string(),
            description: "World".to_string(),
            date: date(2024, 1, 1),
        }],
        norwegian: vec![BlogList {
            id: -3,
            title: "Tom & 'Jerry'".to_string(),
            description: "<b>\"x\"</b>".to_string(),
            date: date(1999, 12, 31),
        }],
    };
    let html = render_post_list(&c);
    assert!(html.contains(
        "<li><a href=\"/post/5\">Hello</a>\n<p>World</p>\n<time>2024-01-01</time></li>\n"
    ));
    assert!(html.contains(
        "<li><a href=\"/post/-3\">Tom &amp; &#x27;Jerry&#x27;</a>\n<p>&lt;b&gt;&quot;x&quot;&lt;/b&gt;</p>\n<time>1999-12-31</time></li>\n"
    ));
}

#[test]
fn store_failure_on_listing_is_server_error() {
    let page = blog(Err(StoreError::Unavailable));
    assert_eq!(page.status, 500);
    assert_eq!(page.body, render_error());
}

#[test]
fn post_body_is_rendered_raw() {
    let page = get_blogpost(Ok(detail("Greeting", "PHA+SGk8L3A+")));
    assert_eq!(page.status, 200);
    assert!(page.body.contains("<p>Hi</p>"));
    assert!(page.body.contains("Greeting"));
    assert!(page.body.contains("2024-01-01"));
}

#[test]
fn post_title_is_escaped() {
    let html = render_post_detail("a<b", &date(2024, 5, 17), "<em>x</em>");
    assert!(html.contains("<h1>a&lt;b</h1>"));
    assert!(html.contains("<time>2024-05-17</time>"));
    assert!(html.contains("<em>x</em>"));
    assert!(!html.contains("a<b"));
}

#[test]
fn malformed_body_is_server_error_without_details() {
    let page = get_blogpost(Ok(detail("Broken", "not base64!")));
    assert_eq!(page.status, 500);
    assert_eq!(page.body, render_error());
    assert!(!page.body.contains("Invalid"));
    assert!(!page.body.contains("byte"));
    assert!(!page.body.contains("Broken"));

    let page = get_blogpost(Ok(detail("Broken", "//4=")));
    assert_eq!(page.status, 500);
    assert_eq!(page.body, render_error());
    assert!(!page.body.contains("invalid utf-8"));
    assert!(!page.body.contains("sequence"));
}

#[test]
fn missing_post_matches_malformed_id() {
    assert_eq!(post_id("abc"), None);
    assert_eq!(post_id("999"), Some(999));
    let missing = get_blogpost(Err(LookupError::NotFound));
    let fallback = h404();
    assert_eq!(missing.status, 404);
    assert_eq!(fallback.status, 404);
    assert_eq!(missing.body, fallback.body);
    assert_eq!(missing.body, render_not_found());
}

#[test]
fn store_failure_on_post_is_server_error() {
    let page = get_blogpost(Err(LookupError::StoreUnavailable));
    assert_eq!(page.status, 500);
    assert_eq!(page.body, render_error());
}

#[test]
fn home_page_links_to_blog() {
    let page = index();
    assert_eq!(page.status, 200);
    assert!(page.body.contains("href=\"/blog\""));
    assert!(page.body.starts_with("<!DOCTYPE html>"));
}

#[test]
fn log_labels() {
    assert_eq!(LogLevel::Warn.label(), "WARNING");
    assert_eq!(LogLevel::Info.label(), "INFO   ");
    assert_eq!(LogLevel::Error.label(), "ERROR  ");
    assert_eq!(LogLevel::Success.label(), "SUCCESS");
}
