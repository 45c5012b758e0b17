use rsstui::error::AppError;
use rsstui::feed::{feed_data_from_raw, parse_feed_data, RawEntry, RawFeed};
use rsstui::storage::{data_base, DataBase};

const RSS: &str = r#"<?xml version="1.0"?>
<rss version="2.0"><channel><title>My Feed</title><link>http://x</link><description>d</description>
<item><title>One</title><link>http://x/1</link><guid>id-1</guid><description>&lt;p&gt;Hello&lt;/p&gt;</description></item>
<item><guid>id-2</guid><link>http://x/2</link></item>
</channel></rss>"#;

#[test]
fn rss_document_is_parsed_into_articles() {
    let d = parse_feed_data("http://x/feed", RSS.as_bytes()).unwrap();
    assert_eq!(d.title, "My Feed");
    assert_eq!(d.articles.len(), 2);
    let a = &d.articles[0];
    assert_eq!(a.id, "id-1");
    assert_eq!(a.title, "One");
    assert_eq!(a.link.as_deref(), Some("http://x/1"));
    assert_eq!(a.summary, "Hello");
    assert!(!a.read);
    let b = &d.articles[1];
    assert_eq!(b.id, "id-2");
    assert_eq!(b.title, "(untitled)");
    assert_eq!(b.summary, "");
}

#[test]
fn non_feed_document_is_a_parse_error() {
    let r = parse_feed_data("http://x", b"<html><body>nope</body></html>");
    match r {
        Err(AppError::Parse(msg)) => assert!(!msg.is_empty()),
        _ => panic!("expected a parse error"),
    }
}

fn entry(id: &str) -> RawEntry {
    RawEntry { id: id.to_string(), title: None, links: Vec::new(), summary: None, content: None, published: None }
}

#[test]
fn raw_feed_fallbacks() {
    let mut e1 = entry("1");
    e1.content = Some("<b>body</b>".to_string());
    e1.links = vec!["http://first".to_string(), "http://second".to_string()];
    e1.published = Some(86_400);
    let mut e2 = entry("2");
    e2.summary = Some("<i>sum</i>".to_string());
    e2.content = Some("<b>ignored</b>".to_string());
    e2.title = Some("Two".to_string());
    let raw = RawFeed { title: None, entries: vec![e1, e2, entry("3")] };
    let d = feed_data_from_raw("http://u", &raw);
    assert_eq!(d.title, "http://u");
    assert_eq!(d.articles[0].title, "(untitled)");
    assert_eq!(d.articles[0].link.as_deref(), Some("http://first"));
    assert_eq!(d.articles[0].summary, "**body**");
    assert_eq!(d.articles[0].published, Some(86_400));
    assert_eq!(d.articles[1].title, "Two");
    assert_eq!(d.articles[1].summary, "_sum_");
    assert_eq!(d.articles[2].summary, "");
    assert_eq!(d.articles[2].link, None);
}

#[test]
fn error_messages_name_their_kind() {
    assert_eq!(AppError::Http("x".into()).message(), "HTTP request failed: x");
    assert_eq!(AppError::Parse("x".into()).message(), "Feed parse error: x");
    assert_eq!(AppError::Io("x".into()).message(), "IO error: x");
    assert_eq!(AppError::Serde("x".into()).message(), "Serialization error: x");
    assert_eq!(AppError::Terminal("x".into()).message(), "Terminal error: x");
}

const PODCAST: &str = r#"<?xml version="1.0" encoding="UTF-8"?>
<rss version="2.0" xmlns:itunes="http://www.itunes.com/dtds/podcast-1.0.dtd"><channel><title>Cast</title>
<item><title>Épisode</title><guid>e1</guid><itunes:duration>01:02:03</itunes:duration></item>
</channel></rss>"#;

#[test]
fn podcast_with_ordinary_duration_is_parsed() {
    let d = parse_feed_data("http://p", PODCAST.as_bytes()).unwrap();
    assert_eq!(d.title, "Cast");
    assert_eq!(d.articles.len(), 1);
    assert_eq!(d.articles[0].title, "Épisode");
}

#[test]
fn overlong_duration_is_refused_before_parsing() {
    let doc = PODCAST.replace("01:02:03", "99999999999999999999999:00:00");
    match parse_feed_data("http://p", doc.as_bytes()) {
        Err(AppError::Parse(msg)) => {
            assert_eq!(msg, "feed refused: a play time in it cannot be read safely")
        }
        _ => panic!("expected the feed to be refused"),
    }
}

#[test]
fn non_ascii_digit_duration_is_refused() {
    let doc = PODCAST.replace("01:02:03", "\u{0663}");
    assert!(matches!(parse_feed_data("http://p", doc.as_bytes()), Err(AppError::Parse(_))));
}

#[test]
fn long_numbers_without_play_times_are_accepted() {
    let doc = RSS.replace("<title>My Feed</title>", "<title>Feed 12345678901234567890 &#39;</title>");
    let d = parse_feed_data("http://x/feed", doc.as_bytes()).unwrap();
    assert!(d.title.starts_with("Feed 12345678901234567890"));
}

#[test]
fn podcast_with_character_reference_is_parsed() {
    let doc = r#"<?xml version="1.0"?>
<rss version="2.0" xmlns:itunes="http://www.itunes.com/dtds/podcast-1.0.dtd"><channel><title>A&#38;B</title>
<textInput><title>Search</title><name>q</name><link>http://x/s</link></textInput>
<item><title>It&#39;s here</title><guid>e1</guid><link>http://x/1</link><itunes:duration>61</itunes:duration></item>
</channel></rss>"#;
    let d = parse_feed_data("http://p", doc.as_bytes()).unwrap();
    assert_eq!(d.title, "A&B");
    assert_eq!(d.articles.len(), 1);
    assert_eq!(d.articles[0].title, "It's here");
}

#[test]
fn thumbnail_time_is_read_when_calm() {
    let doc = r#"<rss version="2.0" xmlns:media="http://search.yahoo.com/mrss/"><channel><title>V</title>
<item><guid>v1</guid><title>Vid</title><media:thumbnail url="http://x/a.jpg" time="12:05:35.5"/></item>
</channel></rss>"#;
    let d = parse_feed_data("http://v", doc.as_bytes()).unwrap();
    assert_eq!(d.articles[0].title, "Vid");
    let bad = doc.replace("12:05:35.5", "99999999999999999999:00:00");
    assert!(matches!(parse_feed_data("http://v", bad.as_bytes()), Err(AppError::Parse(_))));
}

#[test]
fn duration_built_from_character_references_is_refused() {
    let doc = PODCAST.replace("01:02:03", "&#57;&#57;");
    assert!(matches!(parse_feed_data("http://p", doc.as_bytes()), Err(AppError::Parse(_))));
}

#[test]
fn data_directory_choice() {
    match data_base(Some("/x".to_string()), Some("/h".to_string())) {
        DataBase::Xdg(d) => assert_eq!(d, "/x"),
        _ => panic!("expected XDG_DATA_HOME"),
    }
    match data_base(None, Some("/h".to_string())) {
        DataBase::UnderHome(h) => assert_eq!(h, "/h"),
        _ => panic!("expected HOME"),
    }
    assert!(matches!(data_base(None, None), DataBase::Relative));
}
