use rsstui::app::{ActivePane, App, AppMode, FeedMessage, StatusLevel};
use rsstui::feed::{Article, FeedData};
use rsstui::storage::{FeedConfig, StorageConfig};
use rsstui::style::{Color, Line, Modifier, Style};
use rsstui::text::{push_decimal, trimmed};
use rsstui::ui::{
    article_highlight_style, article_items, articles_placeholder, border_color, build_cursor_line, centered_rect,
    confirm_delete_lines, feed_highlight_style, feed_items, highlight_symbol, help_text, pane_title, preview_lines, preview_placeholder,
    status_span, title_line, Rect,
};

fn texts(l: &Line) -> Vec<String> {
    l.spans.iter().map(|s| s.content.clone()).collect()
}

fn app_with(urls: &[&str]) -> App {
    App::new(&StorageConfig {
        feeds: urls.iter().map(|u| FeedConfig { url: u.to_string(), read_ids: Vec::new() }).collect(),
    })
}

fn art(id: &str, read: bool, published: Option<i64>, link: Option<&str>, summary: &str) -> Article {
    Article {
        id: id.to_string(),
        title: format!("T{id}"),
        link: link.map(|s| s.to_string()),
        published,
        summary: summary.to_string(),
        read,
    }
}

fn deliver(app: &mut App, url: &str, articles: Vec<Article>) {
    let msg = FeedMessage::FetchDone { url: url.to_string(), result: Ok(FeedData { title: "F".to_string(), articles }) };
    app.poll_messages(vec![msg], 0);
}

#[test]
fn title_shows_fetching_indicator() {
    let mut app = app_with(&["http://a"]);
    let l = title_line(&app);
    assert_eq!(texts(&l), vec![" rsstui ", "  RSS Feed Reader", ""]);
    assert_eq!(l.spans[0].style, Style::new().fg(Color::Black).bg(Color::Cyan).add_modifier(Modifier::Bold));
    app.refresh_all();
    assert_eq!(texts(&title_line(&app))[2], " [fetching...]");
}

#[test]
fn feed_rows_show_badges() {
    let mut app = app_with(&["http://a", "http://b", "http://c"]);
    deliver(&mut app, "http://a", vec![art("1", false, None, None, ""), art("2", false, None, None, "")]);
    app.poll_messages(
        vec![FeedMessage::FetchDone { url: "http://b".to_string(), result: Err("e".to_string()) }],
        0,
    );
    app.spawn_fetch("http://c".to_string());
    let rows = feed_items(&app);
    assert_eq!(texts(&rows[0]), vec!["F", " (2)"]);
    assert_eq!(rows[0].spans[0].style, Style::new().add_modifier(Modifier::Bold));
    assert_eq!(rows[0].spans[1].style, Style::new().fg(Color::Green));
    assert_eq!(texts(&rows[1]), vec!["http://b", " [!]"]);
    assert_eq!(rows[1].spans[0].style, Style::new().fg(Color::Gray));
    assert_eq!(texts(&rows[2]), vec!["http://c", " [...]"]);
}

#[test]
fn article_pane_placeholders() {
    let app = app_with(&[]);
    assert_eq!(articles_placeholder(&app), Some("No feeds \u{2014} press [a] to add one"));
    let mut app = app_with(&["http://a"]);
    assert_eq!(articles_placeholder(&app), Some("No articles. Press [r] to refresh."));
    app.refresh_selected();
    assert_eq!(articles_placeholder(&app), Some("Fetching articles..."));
    deliver(&mut app, "http://a", vec![art("1", false, None, None, "")]);
    assert_eq!(articles_placeholder(&app), None);
}

#[test]
fn article_rows_mark_unread_and_show_dates() {
    let mut app = app_with(&["http://a"]);
    deliver(&mut app, "http://a", vec![art("1", false, Some(0), None, ""), art("2", false, None, None, "")]);
    app.handle_key(rsstui::app::Key { code: rsstui::app::KeyCode::Tab, ctrl: false });
    app.handle_key(rsstui::app::Key { code: rsstui::app::KeyCode::Char('j'), ctrl: false });
    app.handle_key(rsstui::app::Key { code: rsstui::app::KeyCode::Char('m'), ctrl: false });
    let rows = article_items(&app);
    assert_eq!(texts(&rows[0]), vec!["* ", "T1", "  1970-01-01"]);
    assert_eq!(rows[0].spans[1].style, Style::new().add_modifier(Modifier::Bold));
    assert_eq!(texts(&rows[1]), vec!["  ", "T2", "  "]);
    assert_eq!(rows[1].spans[1].style, Style::new().fg(Color::Gray));
    assert_eq!(rows[1].spans[2].style, Style::new().fg(Color::DarkGray));
}

#[test]
fn preview_shows_header_and_rendered_summary() {
    let mut app = app_with(&["http://a"]);
    assert!(preview_lines(&app, 20).is_none());
    assert_eq!(preview_placeholder(), "Select an article to preview.");
    deliver(&mut app, "http://a", vec![art("1", false, Some(90_061), Some("http://l"), "Some *text*")]);
    let lines = preview_lines(&app, 7).unwrap();
    let t: Vec<Vec<String>> = lines.iter().map(texts).collect();
    assert_eq!(
        t,
        vec![
            vec!["T1".to_string()],
            vec![],
            vec!["Published: ".to_string(), "1970-01-02 01:01 UTC".to_string()],
            vec!["Link: ".to_string(), "http://l".to_string()],
            vec![],
            vec!["\u{2500}".repeat(5)],
            vec![],
            vec!["Some ".to_string(), "text".to_string()],
            vec![],
        ]
    );
    assert_eq!(lines[0].spans[0].style, Style::new().add_modifier(Modifier::Bold).fg(Color::White));
}

#[test]
fn status_bar_text() {
    let mut app = app_with(&[]);
    let s = status_span(&app);
    assert_eq!(s.content, help_text(AppMode::Normal, ActivePane::Feeds));
    assert_eq!(s.style, Style::new().fg(Color::DarkGray));
    app.set_status("saved", StatusLevel::Info);
    let s = status_span(&app);
    assert_eq!(s.content, " saved");
    assert_eq!(s.style, Style::new().fg(Color::Green));
    app.set_status("bad", StatusLevel::Error);
    assert_eq!(status_span(&app).style, Style::new().fg(Color::Red));
    assert_eq!(help_text(AppMode::AddingFeed, ActivePane::Preview), " [Enter] confirm  [Esc] cancel");
    assert_eq!(help_text(AppMode::ConfirmDelete, ActivePane::Feeds), " Delete feed? [y] yes  [any] no");
    assert_eq!(
        help_text(AppMode::Normal, ActivePane::Preview),
        " [Tab] focus  [j/k] scroll  [u/d] scroll 5  [m] toggle read  [o] open  [q] quit"
    );
}

#[test]
fn cursor_line_shows_text_and_cursor() {
    let inv = Style::new().bg(Color::White).fg(Color::Black);
    let l = build_cursor_line("abcd", 1);
    assert_eq!(texts(&l), vec!["a", "b", "cd"]);
    assert_eq!(l.spans[1].style, inv);
    let l = build_cursor_line("ab", 2);
    assert_eq!(texts(&l), vec!["ab", " "]);
    assert_eq!(l.spans[1].style, inv);
    assert_eq!(texts(&build_cursor_line("ab", 9)), vec!["ab", " "]);
    assert_eq!(texts(&build_cursor_line("", 0)), vec!["", " "]);
}

#[test]
fn confirm_delete_dialog_names_the_feed() {
    let app = app_with(&["http://a"]);
    let ls = confirm_delete_lines(&app);
    let t: Vec<Vec<String>> = ls.iter().map(texts).collect();
    assert_eq!(t[1], vec!["Delete feed:  ".to_string(), "http://a".to_string()]);
    assert_eq!(t[3], vec!["  [y] Yes   [any other key] Cancel".to_string()]);
    let empty = app_with(&[]);
    assert_eq!(texts(&confirm_delete_lines(&empty)[1])[1], "(unknown)");
}

#[test]
fn pane_chrome() {
    assert_eq!(pane_title(ActivePane::Feeds, true), " Feeds (active) ");
    assert_eq!(pane_title(ActivePane::Articles, false), " Articles ");
    assert_eq!(border_color(true), Color::Cyan);
    assert_eq!(border_color(false), Color::DarkGray);
}

#[test]
fn centered_rect_is_centred() {
    let r = centered_rect(60, 20, Rect { x: 0, y: 0, width: 100, height: 50 });
    assert_eq!(r, Rect { x: 20, y: 20, width: 60, height: 10 });
}

#[test]
fn text_helpers() {
    assert_eq!(trimmed("  \t a b \n"), "a b");
    assert_eq!(trimmed("   "), "");
    let mut s = String::from("n=");
    push_decimal(&mut s, 1207);
    assert_eq!(s, "n=1207");
    let mut z = String::new();
    push_decimal(&mut z, 0);
    assert_eq!(z, "0");
}

#[test]
fn list_highlights() {
    assert_eq!(highlight_symbol(), "> ");
    assert_eq!(
        article_highlight_style(),
        Style::new().bg(Color::Blue).fg(Color::White).add_modifier(Modifier::Bold)
    );
    assert_eq!(feed_highlight_style(), Style::new().bg(Color::DarkGray).add_modifier(Modifier::Bold));
}

#[test]
fn centered_rect_stays_inside_its_area() {
    let area = Rect { x: 3, y: 2, width: 80, height: 24 };
    for (px, py) in [(60u16, 20u16), (50, 25), (100, 100), (0, 0)] {
        let r = centered_rect(px, py, area);
        assert!(r.x >= area.x && r.y >= area.y);
        assert!(r.x + r.width <= area.x + area.width);
        assert!(r.y + r.height <= area.y + area.height);
    }
}

#[test]
fn cursor_line_splits_at_a_byte_offset() {
    let l = build_cursor_line("h\u{fc}x", 1);
    assert_eq!(texts(&l), vec!["h".to_string(), "\u{fc}".to_string(), "x".to_string()]);
    let end = build_cursor_line("h\u{fc}x", 4);
    assert_eq!(texts(&end), vec!["h\u{fc}x".to_string(), " ".to_string()]);
}
