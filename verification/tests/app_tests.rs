use rsstui::app::{ActivePane, App, AppMode, Effect, FeedMessage, Key, KeyCode, StatusLevel};
use rsstui::feed::{Article, FeedData};
use rsstui::storage::{FeedConfig, StorageConfig};

fn key(code: KeyCode) -> Key {
    Key { code, ctrl: false }
}

fn ch(c: char) -> Key {
    key(KeyCode::Char(c))
}

fn config(urls: &[&str]) -> StorageConfig {
    StorageConfig {
        feeds: urls
            .iter()
            .map(|u| FeedConfig { url: u.to_string(), read_ids: Vec::new() })
            .collect(),
    }
}

fn article(id: &str, link: Option<&str>) -> Article {
    Article {
        id: id.to_string(),
        title: format!("Title {id}"),
        link: link.map(|l| l.to_string()),
        published: None,
        summary: String::new(),
        read: false,
    }
}

fn fetched(app: &mut App, url: &str, articles: Vec<Article>) -> Vec<Effect> {
    let msg = FeedMessage::FetchDone {
        url: url.to_string(),
        result: Ok(FeedData { title: format!("Feed {url}"), articles }),
    };
    app.poll_messages(vec![msg], 1_700_000_000)
}

fn saved_urls(e: &Effect) -> Option<Vec<String>> {
    match e {
        Effect::Save(c) => Some(c.feeds.iter().map(|f| f.url.clone()).collect()),
        _ => None,
    }
}

#[test]
fn new_app_selects_first_feed() {
    let app = App::new(&config(&["http://a", "http://b"]));
    assert_eq!(app.feeds.len(), 2);
    assert_eq!(app.feeds[0].title, "http://a");
    assert_eq!(app.selected_feed, 0);
    assert_eq!(app.feed_selection, Some(0));
    assert_eq!(app.article_selection, None);
    assert_eq!(app.active_pane, ActivePane::Feeds);
    assert_eq!(app.mode, AppMode::Normal);
    assert!(app.invariant_holds());
}

#[test]
fn new_app_without_feeds_selects_nothing() {
    let app = App::new(&StorageConfig::default());
    assert!(app.feeds.is_empty());
    assert_eq!(app.feed_selection, None);
}

#[test]
fn load_then_save_gives_back_config() {
    let mut c = config(&["http://a", "http://b"]);
    c.feeds[1].read_ids = vec!["x".to_string(), "y".to_string()];
    let app = App::new(&c);
    let saved = app.storage_config();
    assert_eq!(saved.feeds.len(), 2);
    assert_eq!(saved.feeds[0].url, "http://a");
    assert_eq!(saved.feeds[1].url, "http://b");
    let mut ids = saved.feeds[1].read_ids.clone();
    ids.sort();
    assert_eq!(ids, vec!["x".to_string(), "y".to_string()]);
}

#[test]
fn q_and_ctrl_c_quit_but_plain_c_does_not() {
    let mut app = App::new(&config(&[]));
    app.handle_key(ch('c'));
    assert!(!app.should_quit);
    app.handle_key(Key { code: KeyCode::Char('c'), ctrl: true });
    assert!(app.should_quit);
    let mut app = App::new(&config(&[]));
    app.handle_key(ch('q'));
    assert!(app.should_quit);
}

#[test]
fn tab_cycles_through_panes() {
    let mut app = App::new(&config(&[]));
    app.handle_key(key(KeyCode::Tab));
    assert_eq!(app.active_pane, ActivePane::Articles);
    app.handle_key(key(KeyCode::Tab));
    assert_eq!(app.active_pane, ActivePane::Preview);
    app.handle_key(key(KeyCode::Tab));
    assert_eq!(app.active_pane, ActivePane::Feeds);
    app.handle_key(key(KeyCode::BackTab));
    assert_eq!(app.active_pane, ActivePane::Preview);
    app.handle_key(key(KeyCode::Tab));
    assert_eq!(app.active_pane, ActivePane::Feeds);
}

#[test]
fn tab_into_preview_marks_article_read() {
    let mut app = App::new(&config(&["http://a"]));
    fetched(&mut app, "http://a", vec![article("1", None), article("2", None)]);
    app.handle_key(key(KeyCode::Tab));
    assert!(!app.feeds[0].articles[0].read);
    let effects = app.handle_key(key(KeyCode::Tab));
    assert_eq!(app.active_pane, ActivePane::Preview);
    assert!(app.feeds[0].articles[0].read);
    assert_eq!(app.feeds[0].read_ids, vec!["1".to_string()]);
    assert_eq!(effects.len(), 1);
    assert!(saved_urls(&effects[0]).is_some());
}

#[test]
fn any_normal_key_clears_status() {
    let mut app = App::new(&config(&[]));
    app.set_status("hello", StatusLevel::Info);
    app.handle_key(ch('x'));
    assert!(app.status.is_none());
}

#[test]
fn adding_a_feed_trims_saves_and_fetches() {
    let mut app = App::new(&config(&["http://a"]));
    app.handle_key(ch('a'));
    assert_eq!(app.mode, AppMode::AddingFeed);
    for c in "  http://b ".chars() {
        assert!(app.accepts_key(ch(c)));
        app.handle_key(ch(c));
    }
    let effects = app.handle_key(key(KeyCode::Enter));
    assert_eq!(app.mode, AppMode::Normal);
    assert_eq!(app.feeds.len(), 2);
    assert_eq!(app.feeds[1].url, "http://b");
    assert_eq!(app.feeds[1].title, "http://b");
    assert_eq!(app.selected_feed, 1);
    assert_eq!(app.feed_selection, Some(1));
    assert_eq!(app.input_buffer, "");
    assert_eq!(app.input_cursor, 0);
    assert_eq!(effects.len(), 2);
    assert_eq!(saved_urls(&effects[0]), Some(vec!["http://a".to_string(), "http://b".to_string()]));
    assert!(matches!(&effects[1], Effect::Fetch(u) if u == "http://b"));
    assert_eq!(app.loading, vec!["http://b".to_string()]);
}

#[test]
fn adding_an_existing_or_empty_url_does_nothing() {
    let mut app = App::new(&config(&["http://a"]));
    app.handle_key(ch('a'));
    for c in "http://a".chars() {
        app.handle_key(ch(c));
    }
    let effects = app.handle_key(key(KeyCode::Enter));
    assert!(effects.is_empty());
    assert_eq!(app.feeds.len(), 1);
    assert_eq!(app.mode, AppMode::Normal);
    app.handle_key(ch('a'));
    app.handle_key(ch(' '));
    let effects = app.handle_key(key(KeyCode::Enter));
    assert!(effects.is_empty());
    assert_eq!(app.feeds.len(), 1);
}

#[test]
fn input_line_editing() {
    let mut app = App::new(&config(&[]));
    app.handle_key(ch('a'));
    for c in "abc".chars() {
        app.handle_key(ch(c));
    }
    assert_eq!(app.input_buffer, "abc");
    assert_eq!(app.input_cursor, 3);
    app.handle_key(key(KeyCode::Left));
    app.handle_key(key(KeyCode::Backspace));
    assert_eq!(app.input_buffer, "ac");
    assert_eq!(app.input_cursor, 1);
    app.handle_key(key(KeyCode::Delete));
    assert_eq!(app.input_buffer, "a");
    app.handle_key(key(KeyCode::Delete));
    assert_eq!(app.input_buffer, "a");
    app.handle_key(key(KeyCode::Home));
    assert_eq!(app.input_cursor, 0);
    app.handle_key(key(KeyCode::Left));
    assert_eq!(app.input_cursor, 0);
    app.handle_key(key(KeyCode::Backspace));
    assert_eq!(app.input_buffer, "a");
    app.handle_key(ch('z'));
    assert_eq!(app.input_buffer, "za");
    app.handle_key(key(KeyCode::End));
    assert_eq!(app.input_cursor, 2);
    app.handle_key(key(KeyCode::Right));
    assert_eq!(app.input_cursor, 2);
    app.handle_key(key(KeyCode::Esc));
    assert_eq!(app.mode, AppMode::Normal);
    assert_eq!(app.input_buffer, "");
}

#[test]
fn non_ascii_characters_are_edited_by_whole_characters() {
    let mut app = App::new(&config(&[]));
    app.handle_key(ch('a'));
    assert!(app.accepts_key(ch('\u{e9}')));
    for c in ['h', '\u{e9}', 'x'] {
        app.handle_key(ch(c));
    }
    assert_eq!(app.input_buffer, "h\u{e9}x");
    assert_eq!(app.input_cursor, 4);
    app.handle_key(key(KeyCode::Left));
    assert_eq!(app.input_cursor, 3);
    app.handle_key(key(KeyCode::Left));
    assert_eq!(app.input_cursor, 1);
    app.handle_key(key(KeyCode::Right));
    assert_eq!(app.input_cursor, 3);
    app.handle_key(key(KeyCode::Backspace));
    assert_eq!(app.input_buffer, "hx");
    assert_eq!(app.input_cursor, 1);
    app.handle_key(ch('\u{1F600}'));
    assert_eq!(app.input_buffer, "h\u{1F600}x");
    assert_eq!(app.input_cursor, 5);
    app.handle_key(key(KeyCode::Left));
    app.handle_key(key(KeyCode::Delete));
    assert_eq!(app.input_buffer, "hx");
    assert_eq!(app.input_cursor, 1);
    app.handle_key(key(KeyCode::End));
    assert_eq!(app.input_cursor, 2);
    assert!(app.invariant_holds());
}

#[test]
fn delete_needs_confirmation() {
    let mut app = App::new(&config(&["http://a", "http://b", "http://c"]));
    app.handle_key(ch('G'));
    assert_eq!(app.selected_feed, 2);
    app.handle_key(ch('d'));
    assert_eq!(app.mode, AppMode::ConfirmDelete);
    let effects = app.handle_key(ch('n'));
    assert!(effects.is_empty());
    assert_eq!(app.mode, AppMode::Normal);
    assert_eq!(app.feeds.len(), 3);
    app.handle_key(ch('d'));
    let effects = app.handle_key(ch('Y'));
    assert_eq!(app.feeds.len(), 2);
    assert_eq!(app.selected_feed, 1);
    assert_eq!(app.feed_selection, Some(1));
    assert_eq!(saved_urls(&effects[0]), Some(vec!["http://a".to_string(), "http://b".to_string()]));
    app.handle_key(ch('g'));
    app.handle_key(ch('d'));
    app.handle_key(ch('y'));
    assert_eq!(app.feeds[0].url, "http://b");
    assert_eq!(app.selected_feed, 0);
    app.handle_key(ch('d'));
    app.handle_key(ch('y'));
    assert!(app.feeds.is_empty());
    assert_eq!(app.selected_feed, 0);
    assert_eq!(app.feed_selection, None);
    app.handle_key(ch('d'));
    assert_eq!(app.mode, AppMode::Normal);
}

#[test]
fn feed_navigation_stays_in_range() {
    let mut app = App::new(&config(&["http://a", "http://b"]));
    app.handle_key(ch('k'));
    assert_eq!(app.selected_feed, 0);
    app.handle_key(ch('j'));
    assert_eq!(app.selected_feed, 1);
    app.handle_key(key(KeyCode::Down));
    assert_eq!(app.selected_feed, 1);
    app.handle_key(key(KeyCode::Up));
    assert_eq!(app.selected_feed, 0);
}

#[test]
fn article_navigation_and_enter() {
    let mut app = App::new(&config(&["http://a"]));
    fetched(&mut app, "http://a", vec![article("1", None), article("2", None), article("3", None)]);
    assert_eq!(app.article_selection, Some(0));
    let effects = app.handle_key(key(KeyCode::Enter));
    assert!(effects.is_empty());
    assert_eq!(app.active_pane, ActivePane::Articles);
    app.handle_key(ch('j'));
    app.handle_key(ch('j'));
    app.handle_key(ch('j'));
    assert_eq!(app.selected_article, 2);
    app.handle_key(ch('g'));
    assert_eq!(app.selected_article, 0);
    app.handle_key(ch('G'));
    assert_eq!(app.selected_article, 2);
    app.handle_key(ch('k'));
    assert_eq!(app.selected_article, 1);
    let effects = app.handle_key(key(KeyCode::Enter));
    assert_eq!(app.active_pane, ActivePane::Preview);
    assert!(app.feeds[0].articles[1].read);
    assert_eq!(effects.len(), 1);
}

#[test]
fn toggling_read_twice_restores_state() {
    let mut app = App::new(&config(&["http://a"]));
    fetched(&mut app, "http://a", vec![article("1", None)]);
    app.handle_key(ch('m'));
    assert!(app.feeds[0].articles[0].read);
    assert_eq!(app.feeds[0].unread_count(), 0);
    app.handle_key(ch('m'));
    assert!(!app.feeds[0].articles[0].read);
    assert!(app.feeds[0].read_ids.is_empty());
    assert_eq!(app.feeds[0].unread_count(), 1);
}

#[test]
fn fetch_result_restores_read_flags() {
    let mut c = config(&["http://a"]);
    c.feeds[0].read_ids = vec!["2".to_string()];
    let mut app = App::new(&c);
    app.refresh_all();
    assert_eq!(app.loading.len(), 1);
    let effects = fetched(&mut app, "http://a", vec![article("1", None), article("2", None)]);
    assert!(app.loading.is_empty());
    assert_eq!(app.feeds[0].title, "Feed http://a");
    assert_eq!(app.feeds[0].last_refreshed, Some(1_700_000_000));
    assert!(!app.feeds[0].articles[0].read);
    assert!(app.feeds[0].articles[1].read);
    assert_eq!(app.feeds[0].unread_count(), 1);
    assert_eq!(effects.len(), 1);
    assert!(saved_urls(&effects[0]).is_some());
}

#[test]
fn fetch_error_is_recorded_and_shown() {
    let mut app = App::new(&config(&["http://a"]));
    let msg = FeedMessage::FetchDone { url: "http://a".to_string(), result: Err("boom".to_string()) };
    app.poll_messages(vec![msg], 5);
    assert_eq!(app.feeds[0].fetch_error.as_deref(), Some("boom"));
    let (text, level) = app.status.clone().unwrap();
    assert_eq!(text, "Fetch error for http://a: boom");
    assert_eq!(level, StatusLevel::Error);
}

#[test]
fn fetch_result_for_unknown_url_only_ends_loading() {
    let mut app = App::new(&config(&["http://a"]));
    app.spawn_fetch("http://z".to_string());
    let effects = fetched(&mut app, "http://z", vec![article("1", None)]);
    assert!(app.loading.is_empty());
    assert!(app.feeds[0].articles.is_empty());
    assert_eq!(effects.len(), 1);
}

#[test]
fn poll_without_messages_still_saves() {
    let mut app = App::new(&config(&["http://a"]));
    let effects = app.poll_messages(Vec::new(), 0);
    assert_eq!(saved_urls(&effects[0]), Some(vec!["http://a".to_string()]));
}

#[test]
fn fetch_in_flight_is_not_started_twice() {
    let mut app = App::new(&config(&[]));
    let first = app.spawn_fetch("http://a".to_string());
    assert!(matches!(&first[..], [Effect::Fetch(u)] if u == "http://a"));
    let second = app.spawn_fetch("http://a".to_string());
    assert!(second.is_empty());
    assert_eq!(app.loading.len(), 1);
}

#[test]
fn refresh_messages() {
    let mut app = App::new(&config(&["http://a", "http://a", "http://b"]));
    let effects = app.refresh_all();
    assert_eq!(effects.len(), 2);
    assert_eq!(app.status.clone().unwrap().0, "Refreshing all feeds...");
    let mut app = App::new(&config(&["http://a"]));
    let effects = app.handle_key(ch('r'));
    assert_eq!(effects.len(), 1);
    assert_eq!(app.status.clone().unwrap(), ("Refreshing feed...".to_string(), StatusLevel::Info));
    let mut app = App::new(&config(&[]));
    let effects = app.refresh_selected();
    assert!(effects.is_empty());
    assert!(app.status.is_none());
}

#[test]
fn preview_scroll_is_clamped_to_content() {
    let mut app = App::new(&config(&[]));
    app.set_preview_metrics(&vec![10, 25, 0], 10, 5);
    assert_eq!(app.preview_content_lines, 4);
    assert_eq!(app.preview_area_height, 3);
    assert_eq!(app.preview_max_scroll(), 1);
    app.handle_key(ch('d'));
    assert_eq!(app.preview_scroll, 0);
    app.handle_key(key(KeyCode::Tab));
    app.handle_key(ch('d'));
    assert_eq!(app.preview_scroll, 1);
    app.handle_key(key(KeyCode::Tab));
    assert_eq!(app.active_pane, ActivePane::Preview);
    app.handle_key(ch('j'));
    assert_eq!(app.preview_scroll, 1);
    app.handle_key(ch('u'));
    assert_eq!(app.preview_scroll, 0);
    app.set_preview_metrics(&vec![100], 1, 1);
    assert_eq!(app.preview_content_lines, 100);
    assert_eq!(app.preview_area_height, 0);
    app.handle_key(ch('j'));
    assert_eq!(app.preview_scroll, 3);
    app.handle_key(ch('k'));
    assert_eq!(app.preview_scroll, 0);
}

#[test]
fn open_in_browser_reports() {
    let mut app = App::new(&config(&["http://a"]));
    fetched(&mut app, "http://a", vec![article("1", None), article("2", Some("http://x"))]);
    let effects = app.handle_key(ch('o'));
    assert!(effects.is_empty());
    assert_eq!(app.status.clone().unwrap(), ("This article has no link".to_string(), StatusLevel::Info));
    app.handle_key(key(KeyCode::Tab));
    app.handle_key(ch('j'));
    let effects = app.handle_key(ch('o'));
    assert!(matches!(&effects[..], [Effect::Open(u)] if u == "http://x"));
    app.report_open("http://x", None);
    assert_eq!(app.status.clone().unwrap(), ("Opened http://x".to_string(), StatusLevel::Info));
    app.report_open("http://x", Some("no handler".to_string()));
    assert_eq!(
        app.status.clone().unwrap(),
        ("Failed to open http://x: no handler".to_string(), StatusLevel::Error)
    );
}

#[test]
fn feed_entry_conversions() {
    let c = FeedConfig { url: "http://a".to_string(), read_ids: vec!["1".to_string()] };
    let e = rsstui::app::FeedEntry::from_config(&c);
    assert_eq!(e.url, "http://a");
    assert_eq!(e.title, "http://a");
    assert!(e.articles.is_empty());
    assert_eq!(e.unread_count(), 0);
    let back = e.to_config();
    assert_eq!(back.url, "http://a");
    assert_eq!(back.read_ids, vec!["1".to_string()]);
}

#[test]
fn fetch_clamps_a_row_past_the_new_end() {
    let mut app = App::new(&config(&["http://a"]));
    fetched(&mut app, "http://a", vec![article("1", None), article("2", None), article("3", None), article("4", None)]);
    app.handle_key(key(KeyCode::Enter));
    app.handle_key(key(KeyCode::Char('G')));
    assert_eq!(app.selected_article, 3);
    assert_eq!(app.article_selection, Some(3));
    fetched(&mut app, "http://a", vec![article("1", None), article("2", None)]);
    assert_eq!(app.selected_article, 1);
    assert_eq!(app.article_selection, Some(1));
    fetched(&mut app, "http://a", Vec::new());
    assert_eq!(app.selected_article, 0);
    assert_eq!(app.article_selection, None);
}

#[test]
fn top_and_bottom_in_feeds_pane_reset_the_article_row() {
    let mut app = App::new(&config(&["http://a", "http://b"]));
    fetched(&mut app, "http://a", vec![article("1", None), article("2", None), article("3", None)]);
    app.handle_key(key(KeyCode::Enter));
    app.handle_key(key(KeyCode::Char('G')));
    assert_eq!(app.selected_article, 2);
    app.handle_key(key(KeyCode::Tab));
    app.handle_key(key(KeyCode::Tab));
    assert_eq!(app.active_pane, ActivePane::Feeds);
    app.preview_scroll = 4;
    app.handle_key(key(KeyCode::Char('G')));
    assert_eq!(app.selected_feed, 1);
    assert_eq!(app.selected_article, 0);
    assert_eq!(app.article_selection, None);
    assert_eq!(app.preview_scroll, 0);
    app.handle_key(key(KeyCode::Char('g')));
    assert_eq!(app.selected_feed, 0);
    assert_eq!(app.selected_article, 0);
    assert_eq!(app.article_selection, Some(0));
}

#[test]
fn down_then_up_returns_to_the_row() {
    let mut app = App::new(&config(&["http://a"]));
    fetched(&mut app, "http://a", vec![article("1", None), article("2", None), article("3", None)]);
    app.handle_key(key(KeyCode::Enter));
    app.handle_key(ch('j'));
    let before = app.selected_article;
    app.handle_key(ch('j'));
    app.handle_key(ch('k'));
    assert_eq!(app.selected_article, before);
    assert_eq!(app.article_selection, Some(before));
}

#[test]
fn typing_then_backspace_restores_the_text() {
    let mut app = App::new(&config(&[]));
    app.handle_key(ch('a'));
    for c in ['a', '\u{e9}', 'b'] {
        app.handle_key(ch(c));
    }
    app.handle_key(key(KeyCode::Left));
    let (text, cursor) = (app.input_buffer.clone(), app.input_cursor);
    app.handle_key(ch('\u{4e2d}'));
    app.handle_key(key(KeyCode::Backspace));
    assert_eq!(app.input_buffer, text);
    assert_eq!(app.input_cursor, cursor);
}
