//! What the screen shows, as styled lines: the title bar, the rows of the
//! feeds and articles lists, the preview, the status / help bar and the two
//! dialogs.  The terminal front end draws these inside bordered panes:
//!
//! ```text
//! ┌────────────────────────────────────────────────────────────────┐
//! │ rsstui   RSS Feed Reader                                       │  <- title (1 row)
//! ├─────────────────┬──────────────────────┬──────────────────────┤
//! │ Feeds           │ Articles             │ Preview              │
//! │ > Hacker News   │ > Article headline   │ Full title           │
//! │   The Verge     │   Another article    │ Published: ...       │
//! └─────────────────┴──────────────────────┴──────────────────────┘
//! │ [Tab] focus  [a] add  [d] delete  [r] refresh  [q] quit        │  <- help (1 row)
//! ```

use vstd::prelude::*;
use vstd::string::StringExecFns;

use crate::app::{
    count_unread, ActivePane, App, AppMode, AppView, FeedEntryView, StatusLevel,
};
use crate::feed::ArticleView;
use crate::markdown::{markdown_events, render_events, render_markdown};
use crate::storage::{contains_str, str_set};
use crate::style::{
    plain, span_of, with_bg, with_fg, with_modifier, Color, Line, Modifier, Span,
    SpanView, Style,
};
use crate::text::{byte_len, char_index, chars_at, decimal, on_boundary, push_decimal, push_repeated, repeat, utf8_len};

verus! {

// ── Colour palette ─────────────────────────────────────────────────────────

/// Border colour of the pane that has keyboard focus.
pub const ACTIVE_BORDER: Color = Color::Cyan;
/// Border colour of panes without focus.
pub const INACTIVE_BORDER: Color = Color::DarkGray;
/// Colour of unread-count badges and unread markers.
pub const UNREAD_COLOR: Color = Color::Green;
/// Colour of error indicators.
pub const ERROR_COLOR: Color = Color::Red;
/// Colour of "loading" indicators.
pub const LOADING_COLOR: Color = Color::Yellow;

/// The border colour of a pane.
pub fn border_color(active: bool) -> (c: Color)
    ensures
        c == if active { ACTIVE_BORDER } else { INACTIVE_BORDER },
{
    if active { ACTIVE_BORDER } else { INACTIVE_BORDER }
}

/// The title of a pane, marked when it has focus.
pub fn pane_title(pane: ActivePane, active: bool) -> (t: &'static str)
    ensures
        t@ == match pane {
            ActivePane::Feeds => if active { " Feeds (active) "@ } else { " Feeds "@ },
            ActivePane::Articles => if active { " Articles (active) "@ } else { " Articles "@ },
            ActivePane::Preview => if active { " Preview (active) "@ } else { " Preview "@ },
        },
{
    match pane {
        ActivePane::Feeds => if active { " Feeds (active) " } else { " Feeds " },
        ActivePane::Articles => if active { " Articles (active) " } else { " Articles " },
        ActivePane::Preview => if active { " Preview (active) " } else { " Preview " },
    }
}

fn text_span(s: &str, style: Style) -> (r: Span)
    ensures
        r@ == span_of(s@, style),
{
    Span::styled(String::from_str(s), style)
}

// ── Dates ──────────────────────────────────────────────────────────────────

/// What chrono's `DateTime::<Utc>::from_timestamp(ts, 0)` formatted with the
/// pattern `fmt` reads (`None` when the time is out of chrono's range).
pub uninterp spec fn utc_format(ts: i64, fmt: Seq<char>) -> Option<Seq<char>>;

/// Formats a UTC time with chrono; claims only that the text is the one named
/// by `utc_format` (it depends on the time and pattern alone).  The patterns
/// admitted are the two the reader uses, which chrono formats without error.
#[verifier::external_body]
fn format_utc(ts: i64, fmt: &str) -> (r: Option<String>)
    requires
        fmt@ == "%Y-%m-%d"@ || fmt@ == "%Y-%m-%d %H:%M UTC"@,
    ensures
        match r {
            Some(s) => utc_format(ts, fmt@) == Some(s@),
            None => utc_format(ts, fmt@) is None,
        },
{
    chrono::DateTime::from_timestamp(ts, 0).map(|d| d.format(fmt).to_string())
}

/// The date of a publication time, or nothing.
pub open spec fn date_text(published: Option<i64>) -> Seq<char> {
    match published {
        Some(ts) => match utc_format(ts, "%Y-%m-%d"@) {
            Some(t) => t,
            None => Seq::empty(),
        },
        None => Seq::empty(),
    }
}

fn date_of(published: Option<i64>) -> (r: String)
    ensures
        r@ == date_text(published),
{
    match published {
        Some(ts) => match format_utc(ts, "%Y-%m-%d") {
            Some(t) => t,
            None => String::new(),
        },
        None => String::new(),
    }
}

// ── Title bar ──────────────────────────────────────────────────────────────

/// The title bar: the program name in reverse colours, a caption, and a
/// fetching indicator while any feed is loading.
pub open spec fn title_line_spec(s: AppView) -> Seq<SpanView> {
    seq![
        span_of(" rsstui "@, with_modifier(with_bg(with_fg(plain(), Color::Black), Color::Cyan), Modifier::Bold)),
        span_of("  RSS Feed Reader"@, plain()),
        if s.loading != Set::<Seq<char>>::empty() {
            span_of(" [fetching...]"@, with_fg(plain(), LOADING_COLOR))
        } else {
            span_of(Seq::empty(), plain())
        },
    ]
}

/// The title bar line.
pub fn title_line(app: &App) -> (l: Line)
    ensures
        l@ == title_line_spec(app@),
{
    let indicator = if app.loading.len() > 0 {
        proof {
            assert(str_set(app.loading@).contains(app.loading@[0]@));
        }
        text_span(" [fetching...]", Style::new().fg(LOADING_COLOR))
    } else {
        assert(str_set(app.loading@) =~= Set::<Seq<char>>::empty());
        Span::raw(String::new())
    };
    let mut spans: Vec<Span> = Vec::new();
    spans.push(text_span(" rsstui ", Style::new().fg(Color::Black).bg(Color::Cyan).add_modifier(Modifier::Bold)));
    spans.push(Span::raw(String::from_str("  RSS Feed Reader")));
    spans.push(indicator);
    let l = Line::from_spans(spans);
    assert(l@ =~= title_line_spec(app@));
    l
}

// ── List highlights ────────────────────────────────────────────────────────

/// The marker drawn before the highlighted row of the feeds and articles lists.
pub fn highlight_symbol() -> (t: &'static str)
    ensures
        t@ == "> "@,
{
    "> "
}

/// The style of the highlighted feed row: bold on dark grey.
pub fn feed_highlight_style() -> (r: Style)
    ensures
        r == with_modifier(with_bg(plain(), Color::DarkGray), Modifier::Bold),
{
    Style::new().bg(Color::DarkGray).add_modifier(Modifier::Bold)
}

/// The style of the highlighted article row: bold white on blue, which sets
/// its own foreground so that read (grey) rows stay legible when selected.
pub fn article_highlight_style() -> (r: Style)
    ensures
        r == with_modifier(with_fg(with_bg(plain(), Color::Blue), Color::White), Modifier::Bold),
{
    Style::new().bg(Color::Blue).fg(Color::White).add_modifier(Modifier::Bold)
}

// ── Feeds pane ─────────────────────────────────────────────────────────────

/// A feed's row: its title (bold when it has unread articles, grey
/// otherwise) and a badge: `[...]` while loading, `[!]` after a failed fetch,
/// else the unread count when there are unread articles.
pub open spec fn feed_item_spec(f: FeedEntryView, loading: bool) -> Seq<SpanView> {
    let unread = count_unread(f.articles);
    let suffix = if loading {
        span_of(" [...]"@, with_fg(plain(), LOADING_COLOR))
    } else if f.fetch_error is Some {
        span_of(" [!]"@, with_fg(plain(), ERROR_COLOR))
    } else if unread > 0 {
        span_of(" ("@ + decimal(unread) + ")"@, with_fg(plain(), UNREAD_COLOR))
    } else {
        span_of(Seq::empty(), plain())
    };
    let title_style = if unread > 0 { with_modifier(plain(), Modifier::Bold) } else { with_fg(plain(), Color::Gray) };
    seq![span_of(f.title, title_style), suffix]
}

/// The rows of the feeds list, one per subscription.
pub fn feed_items(app: &App) -> (items: Vec<Line>)
    ensures
        items@.len() == app@.feeds.len(),
        forall|i: int| 0 <= i < items@.len() ==> #[trigger] items@[i]@ == feed_item_spec(
            app@.feeds[i],
            app@.loading.contains(app@.feeds[i].url),
        ),
{
    let mut items: Vec<Line> = Vec::new();
    let mut i: usize = 0;
    while i < app.feeds.len()
        invariant
            i <= app.feeds.len(),
            items@.len() == i,
            forall|j: int| 0 <= j < i ==> #[trigger] items@[j]@ == feed_item_spec(
                app@.feeds[j],
                app@.loading.contains(app@.feeds[j].url),
            ),
        decreases app.feeds.len() - i,
    {
        let feed = &app.feeds[i];
        assert(app@.feeds[i as int] == feed@);
        let is_loading = contains_str(&app.loading, &feed.url);
        let unread = feed.unread_count();
        let suffix = if is_loading {
            text_span(" [...]", Style::new().fg(LOADING_COLOR))
        } else if feed.fetch_error.is_some() {
            text_span(" [!]", Style::new().fg(ERROR_COLOR))
        } else if unread > 0 {
            let mut badge = String::from_str(" (");
            push_decimal(&mut badge, unread as u64);
            badge.append(")");
            Span::styled(badge, Style::new().fg(UNREAD_COLOR))
        } else {
            Span::raw(String::new())
        };
        let title_style = if unread > 0 {
            Style::new().add_modifier(Modifier::Bold)
        } else {
            Style::new().fg(Color::Gray)
        };
        let mut spans: Vec<Span> = Vec::new();
        spans.push(Span::styled(feed.title.clone(), title_style));
        spans.push(suffix);
        let line = Line::from_spans(spans);
        assert(line@ =~= feed_item_spec(app@.feeds[i as int], app@.loading.contains(app@.feeds[i as int].url)));
        items.push(line);
        i = i + 1;
    }
    items
}

// ── Articles pane ──────────────────────────────────────────────────────────

/// The text shown in the articles pane when the selected feed has no
/// articles: `None` when it has some.
pub open spec fn articles_placeholder_spec(s: AppView) -> Option<Seq<char>> {
    let has_feed = s.selected_feed < s.feeds.len();
    if has_feed && s.feeds[s.selected_feed as int].articles.len() > 0 {
        None
    } else if has_feed && s.loading.contains(s.feeds[s.selected_feed as int].url) {
        Some("Fetching articles..."@)
    } else if s.feeds.len() == 0 {
        Some("No feeds \u{2014} press [a] to add one"@)
    } else {
        Some("No articles. Press [r] to refresh."@)
    }
}

/// The placeholder text of the articles pane, if it has no rows to show.
pub fn articles_placeholder(app: &App) -> (r: Option<&'static str>)
    ensures
        match r {
            Some(t) => articles_placeholder_spec(app@) == Some(t@),
            None => articles_placeholder_spec(app@) is None,
        },
{
    let has_feed = app.selected_feed < app.feeds.len();
    if has_feed && app.feeds[app.selected_feed].articles.len() > 0 {
        None
    } else if has_feed && contains_str(&app.loading, &app.feeds[app.selected_feed].url) {
        Some("Fetching articles...")
    } else if app.feeds.len() == 0 {
        Some("No feeds \u{2014} press [a] to add one")
    } else {
        Some("No articles. Press [r] to refresh.")
    }
}

/// An article's row: an unread marker, the title (grey once read, bold while
/// unread) and the publication date.
pub open spec fn article_item_spec(a: ArticleView) -> Seq<SpanView> {
    seq![
        span_of(if a.read { "  "@ } else { "* "@ }, with_fg(plain(), UNREAD_COLOR)),
        span_of(a.title, if a.read { with_fg(plain(), Color::Gray) } else { with_modifier(plain(), Modifier::Bold) }),
        span_of("  "@ + date_text(a.published), with_fg(plain(), Color::DarkGray)),
    ]
}

/// The rows of the articles list of the selected feed (none when no feed is
/// selected).
pub fn article_items(app: &App) -> (items: Vec<Line>)
    ensures
        app@.selected_feed < app@.feeds.len() ==> {
            &&& items@.len() == app@.feeds[app@.selected_feed as int].articles.len()
            &&& forall|i: int| 0 <= i < items@.len() ==> #[trigger] items@[i]@ == article_item_spec(
                app@.feeds[app@.selected_feed as int].articles[i],
            )
        },
        app@.selected_feed >= app@.feeds.len() ==> items@.len() == 0,
{
    let mut items: Vec<Line> = Vec::new();
    if app.selected_feed >= app.feeds.len() {
        return items;
    }
    let feed = &app.feeds[app.selected_feed];
    assert(app@.feeds[app.selected_feed as int] == feed@);
    let mut i: usize = 0;
    while i < feed.articles.len()
        invariant
            i <= feed.articles.len(),
            items@.len() == i,
            forall|j: int| 0 <= j < i ==> #[trigger] items@[j]@ == article_item_spec(feed@.articles[j]),
        decreases feed.articles.len() - i,
    {
        let a = &feed.articles[i];
        assert(feed@.articles[i as int] == a@);
        let marker = if a.read { "  " } else { "* " };
        let title_style = if a.read {
            Style::new().fg(Color::Gray)
        } else {
            Style::new().add_modifier(Modifier::Bold)
        };
        let mut date = String::from_str("  ");
        let d = date_of(a.published);
        date.append(d.as_str());
        let mut spans: Vec<Span> = Vec::new();
        spans.push(text_span(marker, Style::new().fg(UNREAD_COLOR)));
        spans.push(Span::styled(a.title.clone(), title_style));
        spans.push(Span::styled(date, Style::new().fg(Color::DarkGray)));
        let line = Line::from_spans(spans);
        assert(line@ =~= article_item_spec(feed@.articles[i as int]));
        items.push(line);
        i = i + 1;
    }
    items
}

// ── Preview pane ───────────────────────────────────────────────────────────

/// The header of the preview: the title, the publication time and link when
/// known, and a rule `width` columns wide.
pub open spec fn preview_header(a: ArticleView, rule_width: nat) -> Seq<Seq<SpanView>> {
    let title = seq![seq![span_of(a.title, with_fg(with_modifier(plain(), Modifier::Bold), Color::White))], Seq::empty()];
    let published = match a.published {
        Some(ts) => seq![seq![
            span_of("Published: "@, with_fg(plain(), Color::DarkGray)),
            span_of(
                match utc_format(ts, "%Y-%m-%d %H:%M UTC"@) {
                    Some(t) => t,
                    None => Seq::empty(),
                },
                plain(),
            ),
        ]],
        None => Seq::empty(),
    };
    let link = match a.link {
        Some(l) => seq![seq![span_of("Link: "@, with_fg(plain(), Color::DarkGray)), span_of(l, with_fg(plain(), Color::Cyan))]],
        None => Seq::empty(),
    };
    let rule = seq![
        Seq::empty(),
        seq![span_of(repeat("\u{2500}"@, rule_width), with_fg(plain(), Color::DarkGray))],
        Seq::empty(),
    ];
    title + published + link + rule
}

/// The preview of the selected article in a pane `width` columns wide: its
/// header, then its summary rendered from Markdown; `None` when no article is
/// selected.
pub open spec fn preview_lines_spec(s: AppView, width: u16) -> Option<Seq<Seq<SpanView>>> {
    if s.selected_feed < s.feeds.len() && s.selected_article < s.feeds[s.selected_feed as int].articles.len() {
        let a = s.feeds[s.selected_feed as int].articles[s.selected_article as int];
        let rule_width: nat = if width >= 2 { (width - 2) as nat } else { 0 };
        Some(preview_header(a, rule_width) + render_events(markdown_events(a.summary)))
    } else {
        None
    }
}

/// The text shown in the preview pane when no article is selected.
pub fn preview_placeholder() -> (t: &'static str)
    ensures
        t@ == "Select an article to preview."@,
{
    "Select an article to preview."
}

/// The lines of the preview pane.
pub fn preview_lines(app: &App, width: u16) -> (r: Option<Vec<Line>>)
    ensures
        match r {
            Some(ls) => preview_lines_spec(app@, width) == Some(crate::style::lines_view(ls@)),
            None => preview_lines_spec(app@, width) is None,
        },
{
    if !(app.selected_feed < app.feeds.len()
        && app.selected_article < app.feeds[app.selected_feed].articles.len()) {
        return None;
    }
    let a = &app.feeds[app.selected_feed].articles[app.selected_article];
    assert(app@.feeds[app.selected_feed as int].articles[app.selected_article as int] == a@);
    let mut lines: Vec<Line> = Vec::new();
    let mut title: Vec<Span> = Vec::new();
    title.push(Span::styled(a.title.clone(), Style::new().add_modifier(Modifier::Bold).fg(Color::White)));
    lines.push(Line::from_spans(title));
    lines.push(Line::blank());
    match a.published {
        Some(ts) => {
            let when = match format_utc(ts, "%Y-%m-%d %H:%M UTC") {
                Some(t) => t,
                None => String::new(),
            };
            let mut spans: Vec<Span> = Vec::new();
            spans.push(text_span("Published: ", Style::new().fg(Color::DarkGray)));
            spans.push(Span::raw(when));
            lines.push(Line::from_spans(spans));
        },
        None => {},
    }
    match &a.link {
        Some(link) => {
            let mut spans: Vec<Span> = Vec::new();
            spans.push(text_span("Link: ", Style::new().fg(Color::DarkGray)));
            spans.push(Span::styled(link.clone(), Style::new().fg(Color::Cyan)));
            lines.push(Line::from_spans(spans));
        },
        None => {},
    }
    lines.push(Line::blank());
    let mut rule = String::new();
    let rule_width = width.saturating_sub(2);
    push_repeated(&mut rule, "\u{2500}", rule_width as usize);
    let mut spans: Vec<Span> = Vec::new();
    spans.push(Span::styled(rule, Style::new().fg(Color::DarkGray)));
    lines.push(Line::from_spans(spans));
    lines.push(Line::blank());
    let ghost header = crate::style::lines_view(lines@);
    proof {
        assert(header =~~= preview_header(a@, rule_width as nat));
    }
    let body = render_markdown(a.summary.as_str());
    let mut k: usize = 0;
    while k < body.lines.len()
        invariant
            k <= body.lines.len(),
            crate::style::lines_view(lines@) == header + body@.take(k as int),
        decreases body.lines.len() - k,
    {
        let line = body.lines[k].clone_line();
        let ghost prev = lines@;
        lines.push(line);
        assert(crate::style::lines_view(lines@) =~= crate::style::lines_view(prev).push(line@));
        assert(body@.take(k + 1) =~= body@.take(k as int).push(body.lines@[k as int]@));
        assert(crate::style::lines_view(lines@) =~= header + body@.take(k + 1));
        k = k + 1;
    }
    assert(body@.take(body.lines.len() as int) =~= body@);
    Some(lines)
}

// ── Status / help bar ──────────────────────────────────────────────────────

/// The help text for a mode and focused pane.
pub open spec fn help_text_spec(mode: AppMode, pane: ActivePane) -> Seq<char> {
    match mode {
        AppMode::AddingFeed => " [Enter] confirm  [Esc] cancel"@,
        AppMode::ConfirmDelete => " Delete feed? [y] yes  [any] no"@,
        AppMode::Normal => match pane {
            ActivePane::Feeds => " [Tab] focus  [a] add  [d] delete  [r] refresh  [R] refresh all  [q] quit"@,
            ActivePane::Articles => " [Tab] focus  [Enter] preview  [m] toggle read  [o] open  [r] refresh  [q] quit"@,
            ActivePane::Preview => " [Tab] focus  [j/k] scroll  [u/d] scroll 5  [m] toggle read  [o] open  [q] quit"@,
        },
    }
}

/// The help text for a mode and focused pane.
pub fn help_text(mode: AppMode, pane: ActivePane) -> (t: &'static str)
    ensures
        t@ == help_text_spec(mode, pane),
{
    match mode {
        AppMode::AddingFeed => " [Enter] confirm  [Esc] cancel",
        AppMode::ConfirmDelete => " Delete feed? [y] yes  [any] no",
        AppMode::Normal => match pane {
            ActivePane::Feeds => " [Tab] focus  [a] add  [d] delete  [r] refresh  [R] refresh all  [q] quit",
            ActivePane::Articles => " [Tab] focus  [Enter] preview  [m] toggle read  [o] open  [r] refresh  [q] quit",
            ActivePane::Preview => " [Tab] focus  [j/k] scroll  [u/d] scroll 5  [m] toggle read  [o] open  [q] quit",
        },
    }
}

/// The status bar: the status message (green for information, red for
/// errors) when there is one, else the help text in grey.
pub open spec fn status_span_spec(s: AppView) -> SpanView {
    match s.status {
        Some((msg, level)) => span_of(
            " "@ + msg,
            with_fg(plain(), match level {
                StatusLevel::Info => Color::Green,
                StatusLevel::Error => Color::Red,
            }),
        ),
        None => span_of(help_text_spec(s.mode, s.active_pane), with_fg(plain(), Color::DarkGray)),
    }
}

/// The status bar's text and style.
pub fn status_span(app: &App) -> (r: Span)
    ensures
        r@ == status_span_spec(app@),
{
    match &app.status {
        Some((msg, level)) => {
            let color = match level {
                StatusLevel::Info => Color::Green,
                StatusLevel::Error => Color::Red,
            };
            let mut text = String::from_str(" ");
            text.append(msg.as_str());
            Span::styled(text, Style::new().fg(color))
        },
        None => text_span(help_text(app.mode, app.active_pane), Style::new().fg(Color::DarkGray)),
    }
}

// ── Add-feed dialog ────────────────────────────────────────────────────────

/// The text of a line: its spans' contents, in order.
pub open spec fn line_text(l: Seq<SpanView>) -> Seq<char>
    decreases l.len(),
{
    if l.len() == 0 { Seq::empty() } else { line_text(l.drop_last()) + l.last().content }
}

/// The style of the character under the cursor.
pub open spec fn cursor_style() -> Style {
    with_fg(with_bg(plain(), Color::White), Color::Black)
}

/// The input line of the add-feed dialog: the text with the character under
/// the cursor shown inverted, or an inverted space after the text when the
/// cursor is at (or past) its end.
pub open spec fn cursor_line_spec(buffer: Seq<char>, cursor: nat) -> Seq<SpanView> {
    let c = if cursor < buffer.len() { cursor } else { buffer.len() };
    if c < buffer.len() {
        seq![
            span_of(buffer.take(c as int), plain()),
            span_of(buffer.subrange(c as int, (c + 1) as int), cursor_style()),
            span_of(buffer.skip((c + 1) as int), plain()),
        ]
    } else {
        seq![span_of(buffer, plain()), span_of(" "@, cursor_style())]
    }
}

/// The character position of the byte offset `cursor` in `buffer`: the end
/// of the text for an offset at or past its byte length.
pub open spec fn cursor_char(buffer: Seq<char>, cursor: nat) -> nat {
    if cursor >= utf8_len(buffer) { buffer.len() } else { char_index(buffer, cursor as int) as nat }
}

/// Builds the input line of the add-feed dialog, with the cursor given as a
/// byte offset that starts a character or lies at or past the text's end.
pub fn build_cursor_line(buffer: &str, cursor: usize) -> (l: Line)
    requires
        cursor >= utf8_len(buffer@) || on_boundary(buffer@, cursor as int),
    ensures
        l@ == cursor_line_spec(buffer@, cursor_char(buffer@, cursor as nat)),
{
    let owned = String::from_str(buffer);
    let total = byte_len(&owned);
    let (cs, k) = if cursor >= total {
        (crate::text::chars_of(buffer), 0)
    } else {
        chars_at(&owned, cursor)
    };
    let n = cs.len();
    let c = if cursor >= total { n } else { k };
    proof {
        if cursor < total {
            crate::text::lemma_char_index(buffer@, cursor as int);
        }
    }
    let mut before: Vec<char> = Vec::new();
    let mut i: usize = 0;
    while i < c
        invariant
            i <= c <= n,
            n == cs@.len(),
            before@ == cs@.take(i as int),
        decreases c - i,
    {
        before.push(cs[i]);
        assert(cs@.take(i as int).push(cs@[i as int]) =~= cs@.take(i + 1));
        i = i + 1;
    }
    let mut spans: Vec<Span> = Vec::new();
    spans.push(Span::raw(crate::text::string_from_chars(&before)));
    if c < n {
        let mut under: Vec<char> = Vec::new();
        under.push(cs[c]);
        assert(under@ =~= cs@.subrange(c as int, c + 1));
        let mut after: Vec<char> = Vec::new();
        let mut j: usize = c + 1;
        while j < n
            invariant
                c + 1 <= j <= n,
                n == cs@.len(),
                after@ == cs@.subrange(c + 1, j as int),
            decreases n - j,
        {
            after.push(cs[j]);
            assert(cs@.subrange(c + 1, j as int).push(cs@[j as int]) =~= cs@.subrange(c + 1, j + 1));
            j = j + 1;
        }
        assert(after@ =~= cs@.skip(c + 1));
        spans.push(Span::styled(crate::text::string_from_chars(&under), Style::new().bg(Color::White).fg(Color::Black)));
        spans.push(Span::raw(crate::text::string_from_chars(&after)));
    } else {
        assert(before@ =~= cs@);
        spans.push(text_span(" ", Style::new().bg(Color::White).fg(Color::Black)));
    }
    let l = Line::from_spans(spans);
    assert(l@ =~= cursor_line_spec(buffer@, cursor_char(buffer@, cursor as nat)));
    l
}

// ── Delete confirmation ────────────────────────────────────────────────────

/// The body of the delete confirmation: the selected feed's title (or
/// `(unknown)`) and the keys that answer.
pub open spec fn confirm_delete_spec(s: AppView) -> Seq<Seq<SpanView>> {
    let title = if s.selected_feed < s.feeds.len() { s.feeds[s.selected_feed as int].title } else { "(unknown)"@ };
    seq![
        Seq::empty(),
        seq![span_of("Delete feed:  "@, plain()), span_of(title, with_modifier(plain(), Modifier::Bold))],
        Seq::empty(),
        seq![span_of("  [y] Yes   [any other key] Cancel"@, with_fg(plain(), Color::DarkGray))],
    ]
}

/// The lines of the delete confirmation dialog.
pub fn confirm_delete_lines(app: &App) -> (ls: Vec<Line>)
    ensures
        crate::style::lines_view(ls@) == confirm_delete_spec(app@),
{
    let title = if app.selected_feed < app.feeds.len() {
        app.feeds[app.selected_feed].title.clone()
    } else {
        String::from_str("(unknown)")
    };
    let mut ls: Vec<Line> = Vec::new();
    ls.push(Line::blank());
    let mut spans: Vec<Span> = Vec::new();
    spans.push(Span::raw(String::from_str("Delete feed:  ")));
    spans.push(Span::styled(title, Style::new().add_modifier(Modifier::Bold)));
    ls.push(Line::from_spans(spans));
    ls.push(Line::blank());
    let mut hint: Vec<Span> = Vec::new();
    hint.push(text_span("  [y] Yes   [any other key] Cancel", Style::new().fg(Color::DarkGray)));
    ls.push(Line::from_spans(hint));
    assert(crate::style::lines_view(ls@) =~~= confirm_delete_spec(app@));
    ls
}

// ── Layout ─────────────────────────────────────────────────────────────────

/// A rectangle of terminal cells.
#[derive(Clone, Copy, Debug, PartialEq, Eq, Structural)]
pub struct Rect {
    pub x: u16,
    pub y: u16,
    pub width: u16,
    pub height: u16,
}

/// The middle of three areas into which ratatui's `Layout` (vertical or
/// horizontal) splits `area` for the percentages `p0`, `p1`, `p2`.
pub uninterp spec fn layout_middle(area: Rect, vertical: bool, p0: u16, p1: u16, p2: u16) -> Rect;

/// `inner` lies within `outer`.
pub open spec fn rect_within(inner: Rect, outer: Rect) -> bool {
    &&& outer.x <= inner.x
    &&& outer.y <= inner.y
    &&& inner.x + inner.width <= outer.x + outer.width
    &&& inner.y + inner.height <= outer.y + outer.height
}

/// Splits `area` with ratatui's `Layout::split` into three parts with the
/// given percentages and returns the middle one.  Claims that it is the
/// rectangle named by `layout_middle` (the solver depends on its inputs
/// alone) and that it lies within `area`: the layout adds, as required
/// constraints, that every part starts and ends within the area along the
/// split, and it copies the area's position and size across it.
#[verifier::external_body]
fn split_middle(area: Rect, vertical: bool, p0: u16, p1: u16, p2: u16) -> (r: Rect)
    ensures
        r == layout_middle(area, vertical, p0, p1, p2),
        rect_within(r, area),
{
    let direction = if vertical {
        ratatui::layout::Direction::Vertical
    } else {
        ratatui::layout::Direction::Horizontal
    };
    let parts = ratatui::layout::Layout::default().direction(direction).constraints([
        ratatui::layout::Constraint::Percentage(p0),
        ratatui::layout::Constraint::Percentage(p1),
        ratatui::layout::Constraint::Percentage(p2),
    ]).split(ratatui::layout::Rect::new(area.x, area.y, area.width, area.height));
    Rect { x: parts[1].x, y: parts[1].y, width: parts[1].width, height: parts[1].height }
}

/// A rectangle centred in `area` taking `percent_x` of its width and
/// `percent_y` of its height.
pub open spec fn centered_rect_spec(percent_x: u16, percent_y: u16, area: Rect) -> Rect {
    let mx = ((100 - percent_x) / 2) as u16;
    let my = ((100 - percent_y) / 2) as u16;
    layout_middle(layout_middle(area, true, my, percent_y, my), false, mx, percent_x, mx)
}

/// Returns a rectangle centred in `area` with the given percentage size.
pub fn centered_rect(percent_x: u16, percent_y: u16, area: Rect) -> (r: Rect)
    requires
        percent_x <= 100,
        percent_y <= 100,
    ensures
        r == centered_rect_spec(percent_x, percent_y, area),
        rect_within(r, area),
{
    let my = (100 - percent_y) / 2;
    let mx = (100 - percent_x) / 2;
    let vertical = split_middle(area, true, my, percent_y, my);
    split_middle(vertical, false, mx, percent_x, mx)
}

} // verus!
