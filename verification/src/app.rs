//! Application state and keyboard event handling.
//!
//! `App` is the single source of truth for every piece of UI state: which pane
//! has focus, which feed / article is selected, the text typed in the "add
//! feed" dialog, and the set of feeds being fetched.  Work that leaves the
//! process (writing the subscriptions to disk, downloading a feed, opening a
//! browser) is returned as [`Effect`]s for the front end to carry out; results
//! come back as [`FeedMessage`]s.

use vstd::prelude::*;
use vstd::string::StringExecFns;

use crate::feed::{articles_view, Article, ArticleView, FeedData, FeedDataView};
use crate::storage::{
    clone_strs, contains_str, insert_str, remove_str, str_set, FeedConfig, FeedConfigView,
    StorageConfig,
};
use crate::text::{
    byte_len, char_index, char_width, char_width_of, chars_at, lemma_boundary_at, lemma_char_index,
    lemma_offset_end, lemma_offset_insert, lemma_offset_remove, lemma_offset_step, on_boundary,
    string_insert, string_remove, trim, trimmed, utf8_len,
};

verus! {

// ── UI state enums ─────────────────────────────────────────────────────────

/// Which of the three panes currently receives keyboard focus.
#[derive(Debug, Clone, Copy, PartialEq, Eq, Structural)]
pub enum ActivePane {
    Feeds,
    Articles,
    Preview,
}

/// High-level application mode (normal navigation vs. a modal dialog).
#[derive(Debug, Clone, Copy, PartialEq, Eq, Structural)]
pub enum AppMode {
    /// Normal three-pane navigation.
    Normal,
    /// The "add feed" text-entry dialog is open.
    AddingFeed,
    /// The "confirm delete feed" dialog is open.
    ConfirmDelete,
}

/// Severity level for transient status-bar messages.
#[derive(Debug, Clone, Copy, PartialEq, Eq, Structural)]
pub enum StatusLevel {
    Info,
    Error,
}

/// The keys the reader distinguishes.
#[derive(Debug, Clone, Copy, PartialEq, Eq, Structural)]
pub enum KeyCode {
    Char(char),
    Tab,
    BackTab,
    Enter,
    Esc,
    Backspace,
    Delete,
    Left,
    Right,
    Up,
    Down,
    Home,
    End,
    Other,
}

/// A key press: the key and whether Control was held.
#[derive(Debug, Clone, Copy, PartialEq, Eq, Structural)]
pub struct Key {
    pub code: KeyCode,
    pub ctrl: bool,
}

// ── Feed entries ───────────────────────────────────────────────────────────

/// A feed subscription held in memory, combining stored config and live data.
#[derive(Debug)]
pub struct FeedEntry {
    /// The subscribed feed URL.
    pub url: String,
    /// Display title, resolved by the first successful fetch; else the URL.
    pub title: String,
    /// Articles, empty until the first successful fetch.
    pub articles: Vec<Article>,
    /// Time of the most recent successful fetch (seconds since the epoch).
    pub last_refreshed: Option<i64>,
    /// Error message from the most recent failed fetch, if any.
    pub fetch_error: Option<String>,
    /// Article IDs the user has marked as read (persisted across sessions).
    pub read_ids: Vec<String>,
}

/// The value of a [`FeedEntry`].
#[verifier::ext_equal]
pub struct FeedEntryView {
    pub url: Seq<char>,
    pub title: Seq<char>,
    pub articles: Seq<ArticleView>,
    pub last_refreshed: Option<i64>,
    pub fetch_error: Option<Seq<char>>,
    pub read_ids: Set<Seq<char>>,
}

impl View for FeedEntry {
    type V = FeedEntryView;

    open spec fn view(&self) -> FeedEntryView {
        FeedEntryView {
            url: self.url@,
            title: self.title@,
            articles: articles_view(self.articles@),
            last_refreshed: self.last_refreshed,
            fetch_error: crate::feed::opt_view(self.fetch_error),
            read_ids: str_set(self.read_ids@),
        }
    }
}

/// The values of a list of feed entries.
pub open spec fn feeds_view(v: Seq<FeedEntry>) -> Seq<FeedEntryView> {
    v.map_values(|f: FeedEntry| f@)
}

/// The entry for a stored subscription: titled by its URL, no articles yet.
pub open spec fn entry_from_config(c: FeedConfigView) -> FeedEntryView {
    FeedEntryView {
        url: c.url,
        title: c.url,
        articles: Seq::empty(),
        last_refreshed: None,
        fetch_error: None,
        read_ids: c.read_ids,
    }
}

/// The record stored for an entry: its URL and read IDs.
pub open spec fn config_of(f: FeedEntryView) -> FeedConfigView {
    FeedConfigView { url: f.url, read_ids: f.read_ids }
}

/// The records stored for a list of entries, in order.
pub open spec fn storage_of(feeds: Seq<FeedEntryView>) -> Seq<FeedConfigView> {
    feeds.map_values(|f: FeedEntryView| config_of(f))
}

/// The number of unread articles.
pub open spec fn count_unread(a: Seq<ArticleView>) -> nat
    decreases a.len(),
{
    if a.len() == 0 {
        0
    } else {
        count_unread(a.drop_last()) + if a.last().read { 0nat } else { 1nat }
    }
}

/// The entry with article `idx` marked read or unread, and its ID added to or
/// removed from the read IDs.
pub open spec fn with_read(f: FeedEntryView, idx: int, read: bool) -> FeedEntryView {
    let a = f.articles[idx];
    FeedEntryView {
        articles: f.articles.update(idx, ArticleView { read, ..a }),
        read_ids: if read { f.read_ids.insert(a.id) } else { f.read_ids.remove(a.id) },
        ..f
    }
}

/// The articles of a fetch, each marked read exactly when its ID is in `read_ids`.
pub open spec fn restore_read(articles: Seq<ArticleView>, read_ids: Set<Seq<char>>) -> Seq<ArticleView> {
    articles.map_values(|a: ArticleView| ArticleView { read: read_ids.contains(a.id), ..a })
}

/// The entry after a successful fetch at time `now`.
pub open spec fn with_fetched(f: FeedEntryView, data: FeedDataView, now: i64) -> FeedEntryView {
    FeedEntryView {
        title: data.title,
        last_refreshed: Some(now),
        fetch_error: None,
        articles: restore_read(data.articles, f.read_ids),
        ..f
    }
}

impl FeedEntry {
    /// Creates an entry from a stored record, with no live data yet.
    pub fn from_config(config: &FeedConfig) -> (r: FeedEntry)
        ensures
            r@ == entry_from_config(config@),
    {
        let r = FeedEntry {
            url: config.url.clone(),
            title: config.url.clone(),
            articles: Vec::new(),
            last_refreshed: None,
            fetch_error: None,
            read_ids: clone_strs(&config.read_ids),
        };
        assert(r@.articles =~= Seq::<ArticleView>::empty());
        r
    }

    /// An entry for a newly added subscription.
    fn subscribe(url: &String) -> (r: FeedEntry)
        ensures
            r@ == entry_from_config(FeedConfigView { url: url@, read_ids: Set::empty() }),
    {
        let r = FeedEntry {
            url: url.clone(),
            title: url.clone(),
            articles: Vec::new(),
            last_refreshed: None,
            fetch_error: None,
            read_ids: Vec::new(),
        };
        assert(r@.articles =~= Seq::<ArticleView>::empty());
        assert(r@.read_ids =~= Set::<Seq<char>>::empty());
        r
    }

    /// The number of unread articles in this feed.
    pub fn unread_count(&self) -> (n: usize)
        ensures
            n == count_unread(self@.articles),
    {
        let mut n: usize = 0;
        let mut i: usize = 0;
        while i < self.articles.len()
            invariant
                i <= self.articles.len(),
                n == count_unread(self@.articles.take(i as int)),
                n <= i,
            decreases self.articles.len() - i,
        {
            proof {
                assert(self@.articles.take(i + 1).drop_last() =~= self@.articles.take(i as int));
            }
            if !self.articles[i].read {
                n = n + 1;
            }
            i = i + 1;
        }
        assert(self@.articles.take(self.articles.len() as int) =~= self@.articles);
        n
    }

    /// The record to persist: URL and read IDs (live data is dropped).
    pub fn to_config(&self) -> (c: FeedConfig)
        ensures
            c@ == config_of(self@),
    {
        FeedConfig { url: self.url.clone(), read_ids: clone_strs(&self.read_ids) }
    }

    /// Marks article `idx` read or unread and records its ID accordingly.
    fn set_read(&mut self, idx: usize, read: bool)
        requires
            idx < old(self).articles.len(),
        ensures
            final(self)@ == with_read(old(self)@, idx as int, read),
    {
        let mut a = self.articles.remove(idx);
        a.read = read;
        let id = a.id.clone();
        self.articles.insert(idx, a);
        if read {
            insert_str(&mut self.read_ids, id);
        } else {
            remove_str(&mut self.read_ids, &id);
        }
        assert(self@.articles =~= with_read(old(self)@, idx as int, read).articles);
    }

    /// Takes in the result of a successful fetch.
    fn take_fetched(&mut self, data: FeedData, now: i64)
        ensures
            final(self)@ == with_fetched(old(self)@, data@, now),
    {
        self.title = data.title;
        self.last_refreshed = Some(now);
        self.fetch_error = None;
        let mut src = data.articles;
        let ghost orig = src@;
        let mut out: Vec<Article> = Vec::new();
        let n = src.len();
        let mut k: usize = 0;
        while src.len() > 0
            invariant
                k + src@.len() == orig.len(),
                orig.len() == n,
                src@ == orig.skip(k as int),
                articles_view(out@) == restore_read(articles_view(orig.take(k as int)), str_set(self.read_ids@)),
            decreases src@.len(),
        {
            let mut a = src.remove(0);
            proof {
                assert(orig[k as int] == a);
                assert(orig.skip(k + 1) =~= src@);
            }
            a.read = contains_str(&self.read_ids, &a.id);
            let ghost prev = out@;
            out.push(a);
            proof {
                assert(articles_view(orig.take(k + 1)) =~= articles_view(orig.take(k as int)).push(orig[k as int]@));
                assert(articles_view(out@) =~= articles_view(prev).push(a@));
                assert(articles_view(out@) =~= restore_read(articles_view(orig.take(k + 1)), str_set(self.read_ids@)));
            }
            k = k + 1;
        }
        assert(orig.take(k as int) =~= orig);
        self.articles = out;
    }
}

// ── Messages and effects ───────────────────────────────────────────────────

/// Messages sent from background fetch tasks to the main event loop.
pub enum FeedMessage {
    /// A feed fetch completed, successfully or with an error message.
    FetchDone { url: String, result: Result<FeedData, String> },
}

/// The value of a [`FeedMessage`].
pub enum FeedMessageView {
    FetchDone { url: Seq<char>, result: Result<FeedDataView, Seq<char>> },
}

impl View for FeedMessage {
    type V = FeedMessageView;

    open spec fn view(&self) -> FeedMessageView {
        match self {
            FeedMessage::FetchDone { url, result } => FeedMessageView::FetchDone {
                url: url@,
                result: match result {
                    Ok(d) => Ok(d@),
                    Err(e) => Err(e@),
                },
            },
        }
    }
}

/// Work outside the process that a state change asks for.
pub enum Effect {
    /// Write these subscriptions to disk.
    Save(StorageConfig),
    /// Download and parse the feed at this URL in the background.
    Fetch(String),
    /// Open this URL in the system's web browser.
    Open(String),
}

/// The value of an [`Effect`].
pub enum EffectView {
    Save(Seq<FeedConfigView>),
    Fetch(Seq<char>),
    Open(Seq<char>),
}

impl View for Effect {
    type V = EffectView;

    open spec fn view(&self) -> EffectView {
        match self {
            Effect::Save(c) => EffectView::Save(c@),
            Effect::Fetch(u) => EffectView::Fetch(u@),
            Effect::Open(u) => EffectView::Open(u@),
        }
    }
}

/// The values of a list of effects.
pub open spec fn effects_view(v: Seq<Effect>) -> Seq<EffectView> {
    v.map_values(|e: Effect| e@)
}

// ── App state ──────────────────────────────────────────────────────────────

/// All application state.
pub struct App {
    pub active_pane: ActivePane,
    pub mode: AppMode,
    pub should_quit: bool,
    pub feeds: Vec<FeedEntry>,
    /// Index into `feeds` of the highlighted feed.
    pub selected_feed: usize,
    /// The row highlighted in the feeds list, if any.
    pub feed_selection: Option<usize>,
    /// Index into the selected feed's articles of the highlighted article.
    pub selected_article: usize,
    /// The row highlighted in the articles list, if any.
    pub article_selection: Option<usize>,
    /// Vertical scroll offset (in rows) of the preview.
    pub preview_scroll: u16,
    /// Wrapped row count of the previewed article (updated when drawn).
    pub preview_content_lines: u16,
    /// Inner height of the preview pane in rows (updated when drawn).
    pub preview_area_height: u16,
    /// Text typed so far in the add-feed dialog.
    pub input_buffer: String,
    /// Position of the insertion cursor within `input_buffer`.
    pub input_cursor: usize,
    /// Transient message shown in the status bar.
    pub status: Option<(String, StatusLevel)>,
    /// Feed URLs currently being fetched in the background.
    pub loading: Vec<String>,
}

/// The value of an [`App`].
#[verifier::ext_equal]
pub struct AppView {
    pub active_pane: ActivePane,
    pub mode: AppMode,
    pub should_quit: bool,
    pub feeds: Seq<FeedEntryView>,
    pub selected_feed: usize,
    pub feed_selection: Option<usize>,
    pub selected_article: usize,
    pub article_selection: Option<usize>,
    pub preview_scroll: u16,
    pub preview_content_lines: u16,
    pub preview_area_height: u16,
    pub input_buffer: Seq<char>,
    pub input_cursor: usize,
    pub status: Option<(Seq<char>, StatusLevel)>,
    pub loading: Set<Seq<char>>,
}

impl View for App {
    type V = AppView;

    open spec fn view(&self) -> AppView {
        AppView {
            active_pane: self.active_pane,
            mode: self.mode,
            should_quit: self.should_quit,
            feeds: feeds_view(self.feeds@),
            selected_feed: self.selected_feed,
            feed_selection: self.feed_selection,
            selected_article: self.selected_article,
            article_selection: self.article_selection,
            preview_scroll: self.preview_scroll,
            preview_content_lines: self.preview_content_lines,
            preview_area_height: self.preview_area_height,
            input_buffer: self.input_buffer@,
            input_cursor: self.input_cursor,
            status: match self.status {
                Some((m, l)) => Some((m@, l)),
                None => None,
            },
            loading: str_set(self.loading@),
        }
    }
}

/// The state invariant: the selected feed exists (index 0 when there are
/// none), and while the add-feed dialog is open the typed text has a length a
/// `String` can hold and the cursor, a byte offset, starts one of its
/// characters or stands at its end.
pub open spec fn app_wf(s: AppView) -> bool {
    &&& (s.feeds.len() == 0 ==> s.selected_feed == 0)
    &&& (s.feeds.len() > 0 ==> s.selected_feed < s.feeds.len())
    &&& (s.mode == AppMode::AddingFeed ==> {
        &&& on_boundary(s.input_buffer, s.input_cursor as int)
        &&& utf8_len(s.input_buffer) <= isize::MAX
    })
}

/// Keys the add-feed dialog cannot take: a character once the text is at the
/// largest size a `String` can hold.
pub open spec fn key_ok(s: AppView, k: Key) -> bool {
    s.mode == AppMode::AddingFeed && k.code is Char ==> utf8_len(s.input_buffer) + 4 <= isize::MAX
}

/// A state change together with the effects it asks for.
#[verifier::ext_equal]
pub struct Step {
    pub app: AppView,
    pub effects: Seq<EffectView>,
}

/// A state change that asks for nothing.
pub open spec fn quiet(s: AppView) -> Step {
    Step { app: s, effects: Seq::empty() }
}

/// `first` followed by `then`, applied to the state `first` leaves.
pub open spec fn and_then(first: Step, then: spec_fn(AppView) -> Step) -> Step {
    let second = then(first.app);
    Step { app: second.app, effects: first.effects + second.effects }
}

/// The request to persist the current subscriptions.
pub open spec fn save_effect(s: AppView) -> EffectView {
    EffectView::Save(storage_of(s.feeds))
}

/// The state with a status message set.
pub open spec fn with_status(s: AppView, msg: Seq<char>, level: StatusLevel) -> AppView {
    AppView { status: Some((msg, level)), ..s }
}

/// The state a stored configuration starts the reader in: one entry per
/// record, the first feed selected, focus on the feeds pane.
pub open spec fn initial_app(config: Seq<FeedConfigView>) -> AppView {
    let feeds = config.map_values(|c: FeedConfigView| entry_from_config(c));
    AppView {
        active_pane: ActivePane::Feeds,
        mode: AppMode::Normal,
        should_quit: false,
        feeds,
        selected_feed: 0,
        feed_selection: if feeds.len() > 0 { Some(0) } else { None },
        selected_article: 0,
        article_selection: None,
        preview_scroll: 0,
        preview_content_lines: 0,
        preview_area_height: 0,
        input_buffer: Seq::empty(),
        input_cursor: 0,
        status: None,
        loading: Set::empty(),
    }
}

/// Starts a background fetch of `url`, unless one is already in flight.
pub open spec fn spawn_fetch_spec(s: AppView, url: Seq<char>) -> Step {
    if s.loading.contains(url) {
        quiet(s)
    } else {
        Step { app: AppView { loading: s.loading.insert(url), ..s }, effects: seq![EffectView::Fetch(url)] }
    }
}

/// Starts fetches for each URL in turn.
pub open spec fn spawn_all(s: AppView, urls: Seq<Seq<char>>) -> Step
    decreases urls.len(),
{
    if urls.len() == 0 {
        quiet(s)
    } else {
        let before = spawn_all(s, urls.drop_last());
        let last = spawn_fetch_spec(before.app, urls.last());
        Step { app: last.app, effects: before.effects + last.effects }
    }
}

/// Refreshes every subscribed feed.
pub open spec fn refresh_all_spec(s: AppView) -> Step {
    let fetched = spawn_all(s, s.feeds.map_values(|f: FeedEntryView| f.url));
    Step { app: with_status(fetched.app, "Refreshing all feeds..."@, StatusLevel::Info), effects: fetched.effects }
}

/// Refreshes the selected feed, if there is one.
pub open spec fn refresh_selected_spec(s: AppView) -> Step {
    if s.selected_feed < s.feeds.len() {
        let fetched = spawn_fetch_spec(s, s.feeds[s.selected_feed as int].url);
        Step { app: with_status(fetched.app, "Refreshing feed..."@, StatusLevel::Info), effects: fetched.effects }
    } else {
        quiet(s)
    }
}

/// Whether the selected article exists.
pub open spec fn has_selected_article(s: AppView) -> bool {
    s.selected_feed < s.feeds.len() && s.selected_article < s.feeds[s.selected_feed as int].articles.len()
}

/// The selected article (meaningful when it exists).
pub open spec fn selected_article_of(s: AppView) -> ArticleView {
    s.feeds[s.selected_feed as int].articles[s.selected_article as int]
}

/// Marks the selected article read or unread and persists the read IDs; does
/// nothing when no article is selected.
pub open spec fn mark_read_spec(s: AppView, read: bool) -> Step {
    if has_selected_article(s) {
        let feeds = s.feeds.update(
            s.selected_feed as int,
            with_read(s.feeds[s.selected_feed as int], s.selected_article as int, read),
        );
        let s2 = AppView { feeds, ..s };
        Step { app: s2, effects: seq![save_effect(s2)] }
    } else {
        quiet(s)
    }
}

/// The number of articles of the selected feed (0 when there is none).
pub open spec fn article_count(s: AppView) -> nat {
    if s.selected_feed < s.feeds.len() { s.feeds[s.selected_feed as int].articles.len() } else { 0 }
}

/// How far the preview can scroll: content rows beyond the visible height.
pub open spec fn max_scroll(s: AppView) -> u16 {
    if s.preview_content_lines > s.preview_area_height {
        (s.preview_content_lines - s.preview_area_height) as u16
    } else {
        0
    }
}

/// The scroll offset after scrolling down `by` rows, kept within the content.
pub open spec fn scrolled_down(s: AppView, by: u16) -> u16 {
    let raised: u16 = if s.preview_scroll + by > u16::MAX { u16::MAX } else { (s.preview_scroll + by) as u16 };
    if raised < max_scroll(s) { raised } else { max_scroll(s) }
}

/// The scroll offset after scrolling up `by` rows (stopping at the top).
pub open spec fn scrolled_up(s: AppView, by: u16) -> u16 {
    if s.preview_scroll >= by { (s.preview_scroll - by) as u16 } else { 0 }
}

/// The state with feed `i` selected, its first article highlighted if it has
/// any, and the preview back at the top.
pub open spec fn select_feed(s: AppView, i: usize) -> AppView {
    AppView {
        selected_feed: i,
        feed_selection: Some(i),
        selected_article: 0,
        article_selection: if s.feeds[i as int].articles.len() > 0 { Some(0) } else { None },
        preview_scroll: 0,
        ..s
    }
}

/// The `Down` / `j` key.
pub open spec fn navigate_down_spec(s: AppView) -> AppView {
    match s.active_pane {
        ActivePane::Feeds => if s.feeds.len() > 0 && s.selected_feed + 1 < s.feeds.len() {
            select_feed(s, (s.selected_feed + 1) as usize)
        } else {
            s
        },
        ActivePane::Articles => if article_count(s) > 0 && s.selected_article + 1 < article_count(s) {
            let a = (s.selected_article + 1) as usize;
            AppView { selected_article: a, article_selection: Some(a), preview_scroll: 0, ..s }
        } else {
            s
        },
        ActivePane::Preview => AppView { preview_scroll: scrolled_down(s, 3), ..s },
    }
}

/// The `Up` / `k` key.
pub open spec fn navigate_up_spec(s: AppView) -> AppView {
    match s.active_pane {
        ActivePane::Feeds => if s.selected_feed > 0 {
            select_feed(s, (s.selected_feed - 1) as usize)
        } else {
            s
        },
        ActivePane::Articles => if s.selected_article > 0 {
            let a = (s.selected_article - 1) as usize;
            AppView { selected_article: a, article_selection: Some(a), preview_scroll: 0, ..s }
        } else {
            s
        },
        ActivePane::Preview => AppView { preview_scroll: scrolled_up(s, 3), ..s },
    }
}

/// The `g` key: to the top of the focused pane.  In the feeds pane the first
/// feed is selected as `j`/`k` select feeds (`select_feed`).
pub open spec fn navigate_top_spec(s: AppView) -> AppView {
    match s.active_pane {
        ActivePane::Feeds => if s.feeds.len() > 0 {
            select_feed(s, 0)
        } else {
            AppView { selected_feed: 0, feed_selection: None, ..s }
        },
        ActivePane::Articles => AppView {
            selected_article: 0,
            article_selection: if article_count(s) > 0 { Some(0) } else { None },
            ..s
        },
        ActivePane::Preview => AppView { preview_scroll: 0, ..s },
    }
}

/// The `G` key: to the bottom of the focused list.  In the feeds pane the
/// last feed is selected as `j`/`k` select feeds (`select_feed`).
pub open spec fn navigate_bottom_spec(s: AppView) -> AppView {
    match s.active_pane {
        ActivePane::Feeds => if s.feeds.len() > 0 {
            select_feed(s, (s.feeds.len() - 1) as usize)
        } else {
            s
        },
        ActivePane::Articles => if article_count(s) > 0 {
            let a = (article_count(s) - 1) as usize;
            AppView { selected_article: a, article_selection: Some(a), ..s }
        } else {
            s
        },
        ActivePane::Preview => s,
    }
}

/// The `Enter` key in normal mode: from the feeds pane, focus the articles;
/// from the articles pane, open the selected article in the preview and mark
/// it read.
pub open spec fn handle_enter_spec(s: AppView) -> Step {
    match s.active_pane {
        ActivePane::Feeds => quiet(AppView {
            active_pane: ActivePane::Articles,
            selected_article: 0,
            article_selection: if article_count(s) > 0 { Some(0) } else { None },
            preview_scroll: 0,
            ..s
        }),
        ActivePane::Articles => if article_count(s) > 0 {
            mark_read_spec(AppView { active_pane: ActivePane::Preview, preview_scroll: 0, ..s }, true)
        } else {
            quiet(s)
        },
        ActivePane::Preview => quiet(s),
    }
}

/// The pane after `p` in the focus cycle.
pub open spec fn next_pane(p: ActivePane) -> ActivePane {
    match p {
        ActivePane::Feeds => ActivePane::Articles,
        ActivePane::Articles => ActivePane::Preview,
        ActivePane::Preview => ActivePane::Feeds,
    }
}

/// The pane before `p` in the focus cycle.
pub open spec fn prev_pane(p: ActivePane) -> ActivePane {
    match p {
        ActivePane::Feeds => ActivePane::Preview,
        ActivePane::Articles => ActivePane::Feeds,
        ActivePane::Preview => ActivePane::Articles,
    }
}

/// Moves focus to `next`, marking the selected article read when that is the
/// preview pane.
pub open spec fn focus_spec(s: AppView, next: ActivePane) -> Step {
    let marked = if next == ActivePane::Preview { mark_read_spec(s, true) } else { quiet(s) };
    Step { app: AppView { active_pane: next, ..marked.app }, effects: marked.effects }
}

/// The message shown when the selected article has no link.
pub open spec fn no_link_message() -> Seq<char> {
    "This article has no link"@
}

/// The `o` key: asks for the selected article's link to be opened.
pub open spec fn open_in_browser_spec(s: AppView) -> Step {
    if has_selected_article(s) {
        match selected_article_of(s).link {
            Some(url) => Step { app: s, effects: seq![EffectView::Open(url)] },
            None => quiet(with_status(s, no_link_message(), StatusLevel::Info)),
        }
    } else {
        quiet(s)
    }
}

/// A key in normal mode.  Any key first clears the status bar.
pub open spec fn normal_key_spec(s0: AppView, k: Key) -> Step {
    let s = AppView { status: None, ..s0 };
    let c = k.code;
    if c == KeyCode::Char('q') || (c == KeyCode::Char('c') && k.ctrl) {
        quiet(AppView { should_quit: true, ..s })
    } else if c == KeyCode::Tab {
        focus_spec(s, next_pane(s.active_pane))
    } else if c == KeyCode::BackTab {
        focus_spec(s, prev_pane(s.active_pane))
    } else if c == KeyCode::Char('j') || c == KeyCode::Down {
        quiet(navigate_down_spec(s))
    } else if c == KeyCode::Char('k') || c == KeyCode::Up {
        quiet(navigate_up_spec(s))
    } else if c == KeyCode::Char('g') {
        quiet(navigate_top_spec(s))
    } else if c == KeyCode::Char('G') {
        quiet(navigate_bottom_spec(s))
    } else if c == KeyCode::Char('a') {
        quiet(AppView { mode: AppMode::AddingFeed, input_buffer: Seq::empty(), input_cursor: 0, ..s })
    } else if c == KeyCode::Char('d') && s.active_pane == ActivePane::Feeds {
        quiet(if s.feeds.len() > 0 { AppView { mode: AppMode::ConfirmDelete, ..s } } else { s })
    } else if c == KeyCode::Char('r') {
        refresh_selected_spec(s)
    } else if c == KeyCode::Char('R') {
        refresh_all_spec(s)
    } else if c == KeyCode::Enter {
        handle_enter_spec(s)
    } else if c == KeyCode::Char('m') {
        mark_read_spec(s, !(has_selected_article(s) && selected_article_of(s).read))
    } else if c == KeyCode::Char('o') {
        open_in_browser_spec(s)
    } else if c == KeyCode::Char('u') {
        quiet(AppView { preview_scroll: scrolled_up(s, 5), ..s })
    } else if c == KeyCode::Char('d') {
        quiet(AppView { preview_scroll: scrolled_down(s, 5), ..s })
    } else {
        quiet(s)
    }
}

/// Whether some subscription has this URL.
pub open spec fn subscribed(feeds: Seq<FeedEntryView>, url: Seq<char>) -> bool {
    exists|i: int| 0 <= i < feeds.len() && #[trigger] feeds[i].url == url
}

/// Closes the add-feed dialog.
pub open spec fn close_dialog(s: AppView) -> AppView {
    AppView { mode: AppMode::Normal, input_buffer: Seq::empty(), input_cursor: 0, ..s }
}

/// `Enter` in the add-feed dialog: subscribes to the trimmed URL unless it is
/// empty or already subscribed, selects it, saves, and starts fetching it.
pub open spec fn confirm_add_spec(s: AppView) -> Step {
    let url = trim(s.input_buffer);
    if url.len() > 0 && !subscribed(s.feeds, url) {
        let feeds = s.feeds.push(entry_from_config(FeedConfigView { url, read_ids: Set::empty() }));
        let s1 = AppView { feeds, ..s };
        let i = (feeds.len() - 1) as usize;
        let s2 = AppView {
            selected_feed: i,
            feed_selection: Some(i),
            article_selection: None,
            selected_article: 0,
            ..s1
        };
        let fetched = spawn_fetch_spec(s2, url);
        Step { app: close_dialog(fetched.app), effects: seq![save_effect(s1)] + fetched.effects }
    } else {
        quiet(close_dialog(s))
    }
}

/// A key in the add-feed dialog: line editing, `Esc` to cancel, `Enter` to add.
/// The cursor is a byte offset into the text and moves over whole characters.
pub open spec fn adding_key_spec(s: AppView, k: Key) -> Step {
    let cur = s.input_cursor;
    let buf = s.input_buffer;
    let i = char_index(buf, cur as int);
    match k.code {
        KeyCode::Esc => quiet(AppView { mode: AppMode::Normal, input_buffer: Seq::empty(), ..s }),
        KeyCode::Enter => confirm_add_spec(s),
        KeyCode::Backspace => quiet(if i > 0 {
            AppView {
                input_cursor: (cur - char_width(buf[i - 1])) as usize,
                input_buffer: buf.remove(i - 1),
                ..s
            }
        } else {
            s
        }),
        KeyCode::Delete => quiet(if i < buf.len() {
            AppView { input_buffer: buf.remove(i), ..s }
        } else {
            s
        }),
        KeyCode::Left => quiet(AppView {
            input_cursor: if i > 0 { (cur - char_width(buf[i - 1])) as usize } else { 0 },
            ..s
        }),
        KeyCode::Right => quiet(if i < buf.len() {
            AppView { input_cursor: (cur + char_width(buf[i])) as usize, ..s }
        } else {
            s
        }),
        KeyCode::Home => quiet(AppView { input_cursor: 0, ..s }),
        KeyCode::End => quiet(AppView { input_cursor: utf8_len(buf) as usize, ..s }),
        KeyCode::Char(c) => quiet(AppView {
            input_buffer: buf.insert(i, c),
            input_cursor: (cur + char_width(c)) as usize,
            ..s
        }),
        _ => quiet(s),
    }
}

/// A key in the delete confirmation: `y` / `Y` removes the selected feed and
/// saves; any key closes the dialog.
pub open spec fn confirm_key_spec(s: AppView, k: Key) -> Step {
    if (k.code == KeyCode::Char('y') || k.code == KeyCode::Char('Y')) && s.feeds.len() > 0 {
        let feeds = s.feeds.remove(s.selected_feed as int);
        let sel = if s.selected_feed > 0 && s.selected_feed >= feeds.len() {
            (s.selected_feed - 1) as usize
        } else {
            s.selected_feed
        };
        let s2 = AppView {
            mode: AppMode::Normal,
            feeds,
            selected_feed: sel,
            feed_selection: if feeds.len() > 0 { Some(sel) } else { None },
            selected_article: 0,
            article_selection: None,
            preview_scroll: 0,
            ..s
        };
        Step { app: s2, effects: seq![save_effect(s2)] }
    } else {
        quiet(AppView { mode: AppMode::Normal, ..s })
    }
}

/// A key press, routed by the current mode.
pub open spec fn handle_key_spec(s: AppView, k: Key) -> Step {
    match s.mode {
        AppMode::Normal => normal_key_spec(s, k),
        AppMode::AddingFeed => adding_key_spec(s, k),
        AppMode::ConfirmDelete => confirm_key_spec(s, k),
    }
}

/// The index of the first feed with this URL, or -1.
pub open spec fn find_feed(feeds: Seq<FeedEntryView>, url: Seq<char>) -> int
    decreases feeds.len(),
{
    if feeds.len() == 0 {
        -1
    } else {
        let r = find_feed(feeds.drop_last(), url);
        if r >= 0 { r } else if feeds.last().url == url { feeds.len() - 1 } else { -1 }
    }
}

/// The status message for a failed fetch.
pub open spec fn fetch_error_message(url: Seq<char>, e: Seq<char>) -> Seq<char> {
    "Fetch error for "@ + url + ": "@ + e
}

/// The article row fitted to a new article count `n` of the selected feed:
/// nothing highlighted when there are no articles; the first article when
/// none was highlighted; otherwise the same row, moved up to the last
/// article when it lies past the end.
pub open spec fn fit_row(s: AppView, n: nat) -> AppView {
    if n == 0 {
        AppView { selected_article: 0, article_selection: None, ..s }
    } else {
        match s.article_selection {
            None => AppView { selected_article: 0, article_selection: Some(0), ..s },
            Some(k) => AppView {
                selected_article: if s.selected_article < n { s.selected_article } else { (n - 1) as usize },
                article_selection: Some(if k < n { k } else { (n - 1) as usize }),
                ..s
            },
        }
    }
}

/// Applies one fetch result: the URL is no longer loading; the first feed
/// with that URL takes the new title, time and articles (read flags restored
/// from its read IDs) or records the error, which is also shown.  When the
/// updated feed is the selected one, its article row is fitted to the new
/// articles (`fit_row`).
pub open spec fn apply_message_spec(s: AppView, m: FeedMessageView, now: i64) -> AppView {
    match m {
        FeedMessageView::FetchDone { url, result } => {
            let s1 = AppView { loading: s.loading.remove(url), ..s };
            let idx = find_feed(s.feeds, url);
            if idx < 0 {
                s1
            } else {
                let f = s.feeds[idx];
                match result {
                    Ok(data) => {
                        let f2 = with_fetched(f, data, now);
                        let s2 = AppView { feeds: s.feeds.update(idx, f2), ..s1 };
                        if idx == s.selected_feed {
                            fit_row(s2, f2.articles.len())
                        } else {
                            s2
                        }
                    },
                    Err(e) => {
                        let f2 = FeedEntryView { fetch_error: Some(e), ..f };
                        with_status(
                            AppView { feeds: s.feeds.update(idx, f2), ..s1 },
                            fetch_error_message(url, e),
                            StatusLevel::Error,
                        )
                    },
                }
            }
        },
    }
}

/// Applies a batch of messages in order.
pub open spec fn apply_messages(s: AppView, msgs: Seq<FeedMessageView>, now: i64) -> AppView
    decreases msgs.len(),
{
    if msgs.len() == 0 {
        s
    } else {
        apply_message_spec(apply_messages(s, msgs.drop_last(), now), msgs.last(), now)
    }
}

/// The total number of wrapped rows of lines of the given display widths in
/// a pane `inner_width` columns wide.
pub open spec fn wrapped_rows(widths: Seq<usize>, inner_width: nat) -> nat
    decreases widths.len(),
{
    if widths.len() == 0 {
        0
    } else {
        wrapped_rows(widths.drop_last(), inner_width) + (widths.last() + inner_width - 1) as nat / inner_width
    }
}

// ── Lookups ────────────────────────────────────────────────────────────────

/// `find_feed` is the first index with the URL, or -1 when there is none.
pub proof fn lemma_find_feed(feeds: Seq<FeedEntryView>, url: Seq<char>)
    ensures
        find_feed(feeds, url) == -1 || 0 <= find_feed(feeds, url) < feeds.len(),
        find_feed(feeds, url) == -1 ==> forall|j: int| 0 <= j < feeds.len() ==> feeds[j].url != url,
        find_feed(feeds, url) >= 0 ==> feeds[find_feed(feeds, url)].url == url,
        find_feed(feeds, url) >= 0 ==> forall|j: int| 0 <= j < find_feed(feeds, url) ==> feeds[j].url != url,
    decreases feeds.len(),
{
    if feeds.len() > 0 {
        lemma_find_feed(feeds.drop_last(), url);
        assert forall|j: int| 0 <= j < feeds.len() - 1 implies feeds[j] == feeds.drop_last()[j] by {}
    }
}

/// The index of the first feed with this URL.
fn find_feed_index(feeds: &Vec<FeedEntry>, url: &String) -> (r: Option<usize>)
    ensures
        match r {
            Some(i) => i == find_feed(feeds_view(feeds@), url@),
            None => find_feed(feeds_view(feeds@), url@) == -1,
        },
{
    let ghost fv = feeds_view(feeds@);
    proof { lemma_find_feed(fv, url@); }
    let mut i: usize = 0;
    while i < feeds.len()
        invariant
            i <= feeds.len(),
            fv == feeds_view(feeds@),
            forall|j: int| 0 <= j < i ==> fv[j].url != url@,
        decreases feeds.len() - i,
    {
        if feeds[i].url == *url {
            proof {
                assert(fv[i as int] == feeds@[i as int]@);
                assert(fv[i as int].url == url@);
                lemma_find_feed(fv, url@);
                let r = find_feed(fv, url@);
                if r == -1 {
                    assert(fv[i as int].url == url@);
                } else if r < i {
                } else if r > i {
                    assert(fv[i as int].url != url@);
                }
            }
            return Some(i);
        }
        i = i + 1;
    }
    proof {
        let r = find_feed(fv, url@);
        if r >= 0 {
            assert(fv[r].url == url@);
        }
    }
    None
}

/// Whether some feed has this URL.
fn has_feed(feeds: &Vec<FeedEntry>, url: &String) -> (b: bool)
    ensures
        b == subscribed(feeds_view(feeds@), url@),
{
    let r = find_feed_index(feeds, url);
    proof { lemma_find_feed(feeds_view(feeds@), url@); }
    match r {
        Some(i) => {
            assert(feeds_view(feeds@)[i as int].url == url@);
            true
        },
        None => false,
    }
}

// ── App operations ─────────────────────────────────────────────────────────

impl App {
    /// Creates the state for a stored configuration: one entry per stored
    /// subscription, the first feed selected.
    pub fn new(config: &StorageConfig) -> (r: App)
        ensures
            r@ == initial_app(config@),
            app_wf(r@),
    {
        let mut feeds: Vec<FeedEntry> = Vec::new();
        let mut i: usize = 0;
        while i < config.feeds.len()
            invariant
                i <= config.feeds.len(),
                feeds_view(feeds@) == config@.take(i as int).map_values(|c: FeedConfigView| entry_from_config(c)),
            decreases config.feeds.len() - i,
        {
            let e = FeedEntry::from_config(&config.feeds[i]);
            let ghost prev = feeds@;
            feeds.push(e);
            proof {
                assert(feeds_view(feeds@) =~= feeds_view(prev).push(e@));
                assert(config@.take(i + 1) =~= config@.take(i as int).push(config@[i as int]));
                assert(feeds_view(feeds@) =~= config@.take(i + 1).map_values(|c: FeedConfigView| entry_from_config(c)));
            }
            i = i + 1;
        }
        assert(config@.take(config.feeds.len() as int) =~= config@);
        let feed_selection = if feeds.len() > 0 { Some(0) } else { None };
        let r = App {
            active_pane: ActivePane::Feeds,
            mode: AppMode::Normal,
            should_quit: false,
            feeds,
            selected_feed: 0,
            feed_selection,
            selected_article: 0,
            article_selection: None,
            preview_scroll: 0,
            preview_content_lines: 0,
            preview_area_height: 0,
            input_buffer: String::new(),
            input_cursor: 0,
            status: None,
            loading: Vec::new(),
        };
        assert(r@.loading =~= Set::<Seq<char>>::empty());
        r
    }

    /// The subscriptions to persist (URLs and read IDs, in order).
    pub fn storage_config(&self) -> (c: StorageConfig)
        ensures
            c@ == storage_of(self@.feeds),
    {
        let mut out: Vec<FeedConfig> = Vec::new();
        let mut i: usize = 0;
        while i < self.feeds.len()
            invariant
                i <= self.feeds.len(),
                crate::storage::configs_view(out@) == storage_of(self@.feeds.take(i as int)),
            decreases self.feeds.len() - i,
        {
            let c = self.feeds[i].to_config();
            let ghost prev = out@;
            out.push(c);
            proof {
                assert(crate::storage::configs_view(out@) =~= crate::storage::configs_view(prev).push(c@));
                assert(self@.feeds.take(i + 1) =~= self@.feeds.take(i as int).push(self@.feeds[i as int]));
                assert(crate::storage::configs_view(out@) =~= storage_of(self@.feeds.take(i + 1)));
            }
            i = i + 1;
        }
        assert(self@.feeds.take(self.feeds.len() as int) =~= self@.feeds);
        StorageConfig { feeds: out }
    }

    /// The request to write the current subscriptions to disk.
    pub fn save(&self) -> (e: Effect)
        ensures
            e@ == save_effect(self@),
    {
        Effect::Save(self.storage_config())
    }

    /// Starts a background fetch of `url`; does nothing if one for `url` is
    /// already in flight.
    pub fn spawn_fetch(&mut self, url: String) -> (effects: Vec<Effect>)
        ensures
            final(self)@ == spawn_fetch_spec(old(self)@, url@).app,
            effects_view(effects@) == spawn_fetch_spec(old(self)@, url@).effects,
    {
        let mut effects: Vec<Effect> = Vec::new();
        if !contains_str(&self.loading, &url) {
            insert_str(&mut self.loading, url.clone());
            effects.push(Effect::Fetch(url));
        }
        assert(effects_view(effects@) =~= spawn_fetch_spec(old(self)@, url@).effects);
        effects
    }

    /// Sets the status bar message.
    pub fn set_status(&mut self, msg: &str, level: StatusLevel)
        ensures
            final(self)@ == with_status(old(self)@, msg@, level),
    {
        self.status = Some((String::from_str(msg), level));
    }

    /// Triggers a background refresh of all subscribed feeds.
    pub fn refresh_all(&mut self) -> (effects: Vec<Effect>)
        ensures
            final(self)@ == refresh_all_spec(old(self)@).app,
            effects_view(effects@) == refresh_all_spec(old(self)@).effects,
    {
        let ghost urls = old(self)@.feeds.map_values(|f: FeedEntryView| f.url);
        let mut effects: Vec<Effect> = Vec::new();
        let mut i: usize = 0;
        while i < self.feeds.len()
            invariant
                i <= self.feeds.len(),
                self@.feeds == old(self)@.feeds,
                urls == old(self)@.feeds.map_values(|f: FeedEntryView| f.url),
                self@ == spawn_all(old(self)@, urls.take(i as int)).app,
                effects_view(effects@) == spawn_all(old(self)@, urls.take(i as int)).effects,
            decreases self.feeds.len() - i,
        {
            let url = self.feeds[i].url.clone();
            proof {
                assert(urls.take(i + 1).drop_last() =~= urls.take(i as int));
                assert(urls.take(i + 1).last() == url@);
            }
            let mut more = self.spawn_fetch(url);
            let ghost prev = effects@;
            let ghost more_v = more@;
            effects.append(&mut more);
            proof {
                assert(effects_view(effects@) =~= effects_view(prev) + effects_view(more_v));
            }
            i = i + 1;
        }
        assert(urls.take(self.feeds.len() as int) =~= urls);
        self.set_status("Refreshing all feeds...", StatusLevel::Info);
        effects
    }

    /// Triggers a background refresh of the selected feed, if any.
    pub fn refresh_selected(&mut self) -> (effects: Vec<Effect>)
        ensures
            final(self)@ == refresh_selected_spec(old(self)@).app,
            effects_view(effects@) == refresh_selected_spec(old(self)@).effects,
    {
        if self.selected_feed < self.feeds.len() {
            let url = self.feeds[self.selected_feed].url.clone();
            let effects = self.spawn_fetch(url);
            self.set_status("Refreshing feed...", StatusLevel::Info);
            effects
        } else {
            let effects: Vec<Effect> = Vec::new();
            assert(effects_view(effects@) =~= Seq::<EffectView>::empty());
            effects
        }
    }

    /// Whether the selected article exists.
    fn article_selected(&self) -> (b: bool)
        ensures
            b == has_selected_article(self@),
    {
        self.selected_feed < self.feeds.len()
            && self.selected_article < self.feeds[self.selected_feed].articles.len()
    }

    /// The number of articles in the selected feed (0 if none is selected).
    fn selected_article_count(&self) -> (n: usize)
        ensures
            n == article_count(self@),
    {
        if self.selected_feed < self.feeds.len() {
            self.feeds[self.selected_feed].articles.len()
        } else {
            0
        }
    }

    /// Marks the selected article as read or unread, updates the persisted
    /// read IDs and asks for them to be saved.
    pub fn mark_read(&mut self, read: bool) -> (effects: Vec<Effect>)
        ensures
            final(self)@ == mark_read_spec(old(self)@, read).app,
            effects_view(effects@) == mark_read_spec(old(self)@, read).effects,
    {
        let mut effects: Vec<Effect> = Vec::new();
        if self.article_selected() {
            let sel = self.selected_feed;
            let mut f = self.feeds.remove(sel);
            f.set_read(self.selected_article, read);
            let ghost fv = f@;
            self.feeds.insert(sel, f);
            proof {
                assert(feeds_view(self.feeds@) =~= old(self)@.feeds.update(sel as int, fv));
            }
            effects.push(self.save());
        }
        assert(effects_view(effects@) =~= mark_read_spec(old(self)@, read).effects);
        effects
    }

    /// How far the preview can scroll.
    pub fn preview_max_scroll(&self) -> (m: u16)
        ensures
            m == max_scroll(self@),
    {
        self.preview_content_lines.saturating_sub(self.preview_area_height)
    }

    fn scroll_down(&mut self, by: u16)
        ensures
            final(self)@ == (AppView { preview_scroll: scrolled_down(old(self)@, by), ..old(self)@ }),
    {
        let raised = self.preview_scroll.saturating_add(by);
        let m = self.preview_max_scroll();
        self.preview_scroll = if raised < m { raised } else { m };
    }

    /// Records the size of the previewed article as drawn: the display width
    /// of each of its lines, the width inside the pane's borders, and the
    /// pane's outer height.
    pub fn set_preview_metrics(&mut self, widths: &Vec<usize>, inner_width: usize, area_height: u16)
        requires
            inner_width > 0,
        ensures
            final(self)@ == (AppView {
                preview_content_lines: if wrapped_rows(widths@, inner_width as nat) > u16::MAX {
                    u16::MAX
                } else {
                    wrapped_rows(widths@, inner_width as nat) as u16
                },
                preview_area_height: if area_height >= 2 { (area_height - 2) as u16 } else { 0 },
                ..old(self)@
            }),
    {
        let cap: usize = 65536;
        let mut acc: usize = 0;
        let mut i: usize = 0;
        while i < widths.len()
            invariant
                i <= widths.len(),
                inner_width > 0,
                cap == 65536,
                acc == if wrapped_rows(widths@.take(i as int), inner_width as nat) > cap {
                    cap as nat
                } else {
                    wrapped_rows(widths@.take(i as int), inner_width as nat)
                },
            decreases widths.len() - i,
        {
            let w = widths[i];
            let q = w / inner_width;
            let extra: usize = if w % inner_width == 0 { 0 } else { 1 };
            proof {
                assert(widths@.take(i + 1).drop_last() =~= widths@.take(i as int));
                assert(widths@.take(i + 1).last() == w);
                lemma_div_ceil(w as nat, inner_width as nat);
            }
            if q >= cap - acc {
                acc = cap;
            } else {
                let a2 = acc + q;
                acc = if extra >= cap - a2 { cap } else { a2 + extra };
            }
            i = i + 1;
        }
        assert(widths@.take(widths.len() as int) =~= widths@);
        self.preview_content_lines = if acc > 65535 { 65535 } else { acc as u16 };
        self.preview_area_height = area_height.saturating_sub(2);
    }

    fn navigate_down(&mut self)
        requires
            app_wf(old(self)@),
        ensures
            final(self)@ == navigate_down_spec(old(self)@),
    {
        match self.active_pane {
            ActivePane::Feeds => {
                if self.feeds.len() > 0 && self.selected_feed < self.feeds.len() - 1 {
                    let i = self.selected_feed + 1;
                    self.selected_feed = i;
                    self.feed_selection = Some(i);
                    self.selected_article = 0;
                    self.article_selection = if self.feeds[i].articles.len() > 0 { Some(0) } else { None };
                    self.preview_scroll = 0;
                }
            },
            ActivePane::Articles => {
                let len = self.selected_article_count();
                if len > 0 && self.selected_article < len - 1 {
                    self.selected_article = self.selected_article + 1;
                    self.article_selection = Some(self.selected_article);
                    self.preview_scroll = 0;
                }
            },
            ActivePane::Preview => self.scroll_down(3),
        }
    }

    fn navigate_up(&mut self)
        requires
            app_wf(old(self)@),
        ensures
            final(self)@ == navigate_up_spec(old(self)@),
    {
        match self.active_pane {
            ActivePane::Feeds => {
                if self.selected_feed > 0 {
                    let i = self.selected_feed - 1;
                    self.selected_feed = i;
                    self.feed_selection = Some(i);
                    self.selected_article = 0;
                    self.article_selection = if self.feeds[i].articles.len() > 0 { Some(0) } else { None };
                    self.preview_scroll = 0;
                }
            },
            ActivePane::Articles => {
                if self.selected_article > 0 {
                    self.selected_article = self.selected_article - 1;
                    self.article_selection = Some(self.selected_article);
                    self.preview_scroll = 0;
                }
            },
            ActivePane::Preview => {
                self.preview_scroll = self.preview_scroll.saturating_sub(3);
            },
        }
    }

    /// Selects feed `i`, highlights its first article if it has any and
    /// scrolls the preview back to the top.
    fn select_feed_at(&mut self, i: usize)
        requires
            i < old(self).feeds.len(),
        ensures
            final(self)@ == select_feed(old(self)@, i),
    {
        self.selected_feed = i;
        self.feed_selection = Some(i);
        self.selected_article = 0;
        self.article_selection = if self.feeds[i].articles.len() > 0 { Some(0) } else { None };
        self.preview_scroll = 0;
    }

    fn navigate_top(&mut self)
        ensures
            final(self)@ == navigate_top_spec(old(self)@),
    {
        match self.active_pane {
            ActivePane::Feeds => {
                if self.feeds.len() > 0 {
                    self.select_feed_at(0);
                } else {
                    self.selected_feed = 0;
                    self.feed_selection = None;
                }
            },
            ActivePane::Articles => {
                self.selected_article = 0;
                self.article_selection = if self.selected_article_count() > 0 { Some(0) } else { None };
            },
            ActivePane::Preview => {
                self.preview_scroll = 0;
            },
        }
    }

    fn navigate_bottom(&mut self)
        ensures
            final(self)@ == navigate_bottom_spec(old(self)@),
    {
        match self.active_pane {
            ActivePane::Feeds => {
                if self.feeds.len() > 0 {
                    let last = self.feeds.len() - 1;
                    self.select_feed_at(last);
                }
            },
            ActivePane::Articles => {
                let len = self.selected_article_count();
                if len > 0 {
                    self.selected_article = len - 1;
                    self.article_selection = Some(self.selected_article);
                }
            },
            ActivePane::Preview => {},
        }
    }

    fn handle_enter(&mut self) -> (effects: Vec<Effect>)
        ensures
            final(self)@ == handle_enter_spec(old(self)@).app,
            effects_view(effects@) == handle_enter_spec(old(self)@).effects,
    {
        match self.active_pane {
            ActivePane::Feeds => {
                self.active_pane = ActivePane::Articles;
                self.selected_article = 0;
                self.article_selection = if self.selected_article_count() > 0 { Some(0) } else { None };
                self.preview_scroll = 0;
                let effects: Vec<Effect> = Vec::new();
                assert(effects_view(effects@) =~= Seq::<EffectView>::empty());
                effects
            },
            ActivePane::Articles => {
                if self.selected_article_count() > 0 {
                    self.active_pane = ActivePane::Preview;
                    self.preview_scroll = 0;
                    self.mark_read(true)
                } else {
                    let effects: Vec<Effect> = Vec::new();
                    assert(effects_view(effects@) =~= Seq::<EffectView>::empty());
                    effects
                }
            },
            ActivePane::Preview => {
                let effects: Vec<Effect> = Vec::new();
                assert(effects_view(effects@) =~= Seq::<EffectView>::empty());
                effects
            },
        }
    }

    /// Moves focus to `next`, marking the selected article read when that is
    /// the preview pane.
    fn focus(&mut self, next: ActivePane) -> (effects: Vec<Effect>)
        ensures
            final(self)@ == focus_spec(old(self)@, next).app,
            effects_view(effects@) == focus_spec(old(self)@, next).effects,
    {
        let effects = if next == ActivePane::Preview {
            self.mark_read(true)
        } else {
            let e: Vec<Effect> = Vec::new();
            assert(effects_view(e@) =~= Seq::<EffectView>::empty());
            e
        };
        self.active_pane = next;
        effects
    }

    /// Asks for the selected article's link to be opened in the browser;
    /// when the article has no link, says so in the status bar.
    pub fn open_in_browser(&mut self) -> (effects: Vec<Effect>)
        ensures
            final(self)@ == open_in_browser_spec(old(self)@).app,
            effects_view(effects@) == open_in_browser_spec(old(self)@).effects,
    {
        let mut effects: Vec<Effect> = Vec::new();
        if self.article_selected() {
            let link = crate::feed::clone_opt(
                &self.feeds[self.selected_feed].articles[self.selected_article].link,
            );
            match link {
                Some(url) => effects.push(Effect::Open(url)),
                None => self.set_status("This article has no link", StatusLevel::Info),
            }
        }
        assert(effects_view(effects@) =~= open_in_browser_spec(old(self)@).effects);
        effects
    }

    /// Reports the outcome of opening `url` in the browser: `None` when it
    /// opened, else the reason it did not.
    pub fn report_open(&mut self, url: &str, failure: Option<String>)
        ensures
            final(self)@ == match failure {
                None => with_status(old(self)@, "Opened "@ + url@, StatusLevel::Info),
                Some(e) => with_status(old(self)@, "Failed to open "@ + url@ + ": "@ + e@, StatusLevel::Error),
            },
    {
        match failure {
            None => {
                let mut msg = String::from_str("Opened ");
                msg.append(url);
                self.status = Some((msg, StatusLevel::Info));
            },
            Some(e) => {
                let mut msg = String::from_str("Failed to open ");
                msg.append(url);
                msg.append(": ");
                msg.append(e.as_str());
                self.status = Some((msg, StatusLevel::Error));
            },
        }
    }

    fn handle_key_normal(&mut self, key: Key) -> (effects: Vec<Effect>)
        requires
            app_wf(old(self)@),
        ensures
            final(self)@ == normal_key_spec(old(self)@, key).app,
            effects_view(effects@) == normal_key_spec(old(self)@, key).effects,
    {
        self.status = None;
        let c = key.code;
        let mut effects: Vec<Effect> = Vec::new();
        if c == KeyCode::Char('q') || (c == KeyCode::Char('c') && key.ctrl) {
            self.should_quit = true;
        } else if c == KeyCode::Tab {
            let next = match self.active_pane {
                ActivePane::Feeds => ActivePane::Articles,
                ActivePane::Articles => ActivePane::Preview,
                ActivePane::Preview => ActivePane::Feeds,
            };
            effects = self.focus(next);
        } else if c == KeyCode::BackTab {
            let next = match self.active_pane {
                ActivePane::Feeds => ActivePane::Preview,
                ActivePane::Articles => ActivePane::Feeds,
                ActivePane::Preview => ActivePane::Articles,
            };
            effects = self.focus(next);
        } else if c == KeyCode::Char('j') || c == KeyCode::Down {
            self.navigate_down();
        } else if c == KeyCode::Char('k') || c == KeyCode::Up {
            self.navigate_up();
        } else if c == KeyCode::Char('g') {
            self.navigate_top();
        } else if c == KeyCode::Char('G') {
            self.navigate_bottom();
        } else if c == KeyCode::Char('a') {
            self.mode = AppMode::AddingFeed;
            self.input_buffer = String::new();
            self.input_cursor = 0;
        } else if c == KeyCode::Char('d') && self.active_pane == ActivePane::Feeds {
            if self.feeds.len() > 0 {
                self.mode = AppMode::ConfirmDelete;
            }
        } else if c == KeyCode::Char('r') {
            effects = self.refresh_selected();
        } else if c == KeyCode::Char('R') {
            effects = self.refresh_all();
        } else if c == KeyCode::Enter {
            effects = self.handle_enter();
        } else if c == KeyCode::Char('m') {
            let is_read = if self.article_selected() {
                self.feeds[self.selected_feed].articles[self.selected_article].read
            } else {
                false
            };
            effects = self.mark_read(!is_read);
        } else if c == KeyCode::Char('o') {
            effects = self.open_in_browser();
        } else if c == KeyCode::Char('u') {
            self.preview_scroll = self.preview_scroll.saturating_sub(5);
        } else if c == KeyCode::Char('d') {
            self.scroll_down(5);
        }
        assert(effects_view(effects@) =~= normal_key_spec(old(self)@, key).effects);
        effects
    }

    fn handle_key_adding(&mut self, key: Key) -> (effects: Vec<Effect>)
        requires
            app_wf(old(self)@),
            old(self).mode == AppMode::AddingFeed,
            key_ok(old(self)@, key),
        ensures
            final(self)@ == adding_key_spec(old(self)@, key).app,
            effects_view(effects@) == adding_key_spec(old(self)@, key).effects,
    {
        let mut effects: Vec<Effect> = Vec::new();
        match key.code {
            KeyCode::Esc => {
                self.mode = AppMode::Normal;
                self.input_buffer = String::new();
            },
            KeyCode::Enter => {
                effects = self.confirm_add();
            },
            KeyCode::Backspace => {
                let (cs, i) = chars_at(&self.input_buffer, self.input_cursor);
                proof { lemma_char_index(self@.input_buffer, self.input_cursor as int); }
                if i > 0 {
                    proof {
                        lemma_offset_step(self@.input_buffer, i - 1);
                        lemma_boundary_at(self@.input_buffer, i - 1);
                    }
                    self.input_cursor = self.input_cursor - char_width_of(cs[i - 1]);
                    let _ = string_remove(&mut self.input_buffer, self.input_cursor);
                }
            },
            KeyCode::Delete => {
                let (cs, i) = chars_at(&self.input_buffer, self.input_cursor);
                proof { lemma_char_index(self@.input_buffer, self.input_cursor as int); }
                if i < cs.len() {
                    let _ = string_remove(&mut self.input_buffer, self.input_cursor);
                }
            },
            KeyCode::Left => {
                let (cs, i) = chars_at(&self.input_buffer, self.input_cursor);
                proof { lemma_char_index(self@.input_buffer, self.input_cursor as int); }
                if i > 0 {
                    proof { lemma_offset_step(self@.input_buffer, i - 1); }
                    self.input_cursor = self.input_cursor - char_width_of(cs[i - 1]);
                } else {
                    self.input_cursor = 0;
                }
            },
            KeyCode::Right => {
                let (cs, i) = chars_at(&self.input_buffer, self.input_cursor);
                proof { lemma_char_index(self@.input_buffer, self.input_cursor as int); }
                if i < cs.len() {
                    proof {
                        lemma_offset_step(self@.input_buffer, i as int);
                        if i + 1 < cs.len() {
                            crate::text::lemma_offset_increases(self@.input_buffer, i + 1, cs.len() as int);
                        }
                        lemma_offset_end(self@.input_buffer);
                    }
                    self.input_cursor = self.input_cursor + char_width_of(cs[i]);
                }
            },
            KeyCode::Home => {
                self.input_cursor = 0;
            },
            KeyCode::End => {
                self.input_cursor = byte_len(&self.input_buffer);
            },
            KeyCode::Char(c) => {
                proof {
                    lemma_char_index(self@.input_buffer, self.input_cursor as int);
                    crate::text::lemma_offset_end(self@.input_buffer);
                    let i = char_index(self@.input_buffer, self.input_cursor as int);
                    if i < self@.input_buffer.len() {
                        crate::text::lemma_offset_increases(self@.input_buffer, i, self@.input_buffer.len() as int);
                    }
                }
                string_insert(&mut self.input_buffer, self.input_cursor, c);
                self.input_cursor = self.input_cursor + char_width_of(c);
            },
            _ => {},
        }
        assert(effects_view(effects@) =~= adding_key_spec(old(self)@, key).effects);
        effects
    }

    /// `Enter` in the add-feed dialog.
    fn confirm_add(&mut self) -> (effects: Vec<Effect>)
        ensures
            final(self)@ == confirm_add_spec(old(self)@).app,
            effects_view(effects@) == confirm_add_spec(old(self)@).effects,
    {
        let url = trimmed(self.input_buffer.as_str());
        let mut effects: Vec<Effect> = Vec::new();
        if !url.as_str().is_empty() && !has_feed(&self.feeds, &url) {
            let entry = FeedEntry::subscribe(&url);
            let ghost ev = entry@;
            self.feeds.push(entry);
            assert(feeds_view(self.feeds@) =~= old(self)@.feeds.push(ev));
            effects.push(self.save());
            let i = self.feeds.len() - 1;
            self.selected_feed = i;
            self.feed_selection = Some(i);
            self.article_selection = None;
            self.selected_article = 0;
            let mut more = self.spawn_fetch(url);
            let ghost prev = effects@;
            let ghost more_v = more@;
            effects.append(&mut more);
            assert(effects_view(effects@) =~= effects_view(prev) + effects_view(more_v));
        }
        self.mode = AppMode::Normal;
        self.input_buffer = String::new();
        self.input_cursor = 0;
        assert(effects_view(effects@) =~= confirm_add_spec(old(self)@).effects);
        effects
    }

    fn handle_key_confirm_delete(&mut self, key: Key) -> (effects: Vec<Effect>)
        requires
            app_wf(old(self)@),
        ensures
            final(self)@ == confirm_key_spec(old(self)@, key).app,
            effects_view(effects@) == confirm_key_spec(old(self)@, key).effects,
    {
        let mut effects: Vec<Effect> = Vec::new();
        if (key.code == KeyCode::Char('y') || key.code == KeyCode::Char('Y')) && self.feeds.len() > 0 {
            let _removed = self.feeds.remove(self.selected_feed);
            assert(feeds_view(self.feeds@) =~= old(self)@.feeds.remove(old(self).selected_feed as int));
            if self.selected_feed > 0 && self.selected_feed >= self.feeds.len() {
                self.selected_feed = self.selected_feed - 1;
            }
            self.feed_selection = if self.feeds.len() > 0 { Some(self.selected_feed) } else { None };
            self.selected_article = 0;
            self.article_selection = None;
            self.preview_scroll = 0;
            self.mode = AppMode::Normal;
            effects.push(self.save());
        } else {
            self.mode = AppMode::Normal;
        }
        assert(effects_view(effects@) =~= confirm_key_spec(old(self)@, key).effects);
        effects
    }

    /// Whether the state invariant [`app_wf`] holds.
    pub fn invariant_holds(&self) -> (b: bool)
        ensures
            b == app_wf(self@),
    {
        let selection_ok = if self.feeds.len() == 0 {
            self.selected_feed == 0
        } else {
            self.selected_feed < self.feeds.len()
        };
        let input_ok = if self.mode == AppMode::AddingFeed {
            let _ = byte_len(&self.input_buffer);
            cursor_on_boundary(&self.input_buffer, self.input_cursor)
        } else {
            true
        };
        selection_ok && input_ok
    }

    /// Whether the current mode can take `key` (see [`key_ok`]).
    pub fn accepts_key(&self, key: Key) -> (b: bool)
        requires
            app_wf(self@),
        ensures
            b == key_ok(self@, key),
    {
        match key.code {
            KeyCode::Char(_) => {
                if self.mode == AppMode::AddingFeed {
                    let n = byte_len(&self.input_buffer);
                    n <= (isize::MAX as usize) - 4
                } else {
                    true
                }
            },
            _ => true,
        }
    }

    /// Routes a key press to the handler for the current mode and returns the
    /// effects it asks for.
    pub fn handle_key(&mut self, key: Key) -> (effects: Vec<Effect>)
        requires
            app_wf(old(self)@),
            key_ok(old(self)@, key),
        ensures
            final(self)@ == handle_key_spec(old(self)@, key).app,
            effects_view(effects@) == handle_key_spec(old(self)@, key).effects,
            app_wf(final(self)@),
    {
        let effects = match self.mode {
            AppMode::Normal => self.handle_key_normal(key),
            AppMode::AddingFeed => self.handle_key_adding(key),
            AppMode::ConfirmDelete => self.handle_key_confirm_delete(key),
        };
        proof { lemma_key_keeps_wf(old(self)@, key); }
        effects
    }

    fn fit_row(&mut self, n: usize)
        ensures
            final(self)@ == fit_row(old(self)@, n as nat),
    {
        if n == 0 {
            self.selected_article = 0;
            self.article_selection = None;
        } else {
            match self.article_selection {
                None => {
                    self.selected_article = 0;
                    self.article_selection = Some(0);
                },
                Some(k) => {
                    if self.selected_article >= n {
                        self.selected_article = n - 1;
                    }
                    self.article_selection = Some(if k < n { k } else { n - 1 });
                },
            }
        }
    }

    /// Applies one message from a background fetch.
    pub fn apply_message(&mut self, msg: FeedMessage, now: i64)
        ensures
            final(self)@ == apply_message_spec(old(self)@, msg@, now),
    {
        match msg {
            FeedMessage::FetchDone { url, result } => {
                remove_str(&mut self.loading, &url);
                proof { lemma_find_feed(self@.feeds, url@); }
                match find_feed_index(&self.feeds, &url) {
                    None => {},
                    Some(i) => {
                        let ghost fv0 = self@.feeds;
                        let mut f = self.feeds.remove(i);
                        match result {
                            Ok(data) => {
                                f.take_fetched(data, now);
                                let n = f.articles.len();
                                let ghost fv = f@;
                                self.feeds.insert(i, f);
                                assert(feeds_view(self.feeds@) =~= fv0.update(i as int, fv));
                                if i == self.selected_feed {
                                    self.fit_row(n);
                                }
                            },
                            Err(e) => {
                                let mut message = String::from_str("Fetch error for ");
                                message.append(url.as_str());
                                message.append(": ");
                                message.append(e.as_str());
                                f.fetch_error = Some(e);
                                let ghost fv = f@;
                                self.feeds.insert(i, f);
                                assert(feeds_view(self.feeds@) =~= fv0.update(i as int, fv));
                                self.status = Some((message, StatusLevel::Error));
                            },
                        }
                    },
                }
            },
        }
    }

    /// Applies every pending message from background fetches, in order, and
    /// asks for the subscriptions to be saved.
    pub fn poll_messages(&mut self, msgs: Vec<FeedMessage>, now: i64) -> (effects: Vec<Effect>)
        ensures
            final(self)@ == apply_messages(old(self)@, msgs@.map_values(|m: FeedMessage| m@), now),
            effects_view(effects@) == seq![save_effect(final(self)@)],
    {
        let ghost mv = msgs@.map_values(|m: FeedMessage| m@);
        let mut rest = msgs;
        let n = rest.len();
        let mut k: usize = 0;
        while rest.len() > 0
            invariant
                k + rest@.len() == mv.len(),
                mv.len() == n,
                rest@.map_values(|m: FeedMessage| m@) == mv.skip(k as int),
                self@ == apply_messages(old(self)@, mv.take(k as int), now),
            decreases rest@.len(),
        {
            let ghost before = rest@;
            let m = rest.remove(0);
            proof {
                assert(before.map_values(|m: FeedMessage| m@)[0] == mv.skip(k as int)[0]);
                assert(mv[k as int] == m@);
                assert(rest@ =~= before.skip(1));
                assert(rest@.map_values(|m: FeedMessage| m@) =~= before.map_values(|m: FeedMessage| m@).skip(1));
                assert(mv.skip(k as int).skip(1) =~= mv.skip(k + 1));
                assert(mv.take(k + 1).drop_last() =~= mv.take(k as int));
            }
            self.apply_message(m, now);
            k = k + 1;
        }
        assert(mv.take(k as int) =~= mv);
        let mut effects: Vec<Effect> = Vec::new();
        effects.push(self.save());
        assert(effects_view(effects@) =~= seq![save_effect(self@)]);
        effects
    }
}

/// Whether the cursor stands at the start of a character of the dialog text
/// or at its end.
fn cursor_on_boundary(buffer: &String, cursor: usize) -> (b: bool)
    ensures
        b == on_boundary(buffer@, cursor as int),
{
    let cs = crate::text::chars_of(buffer.as_str());
    let total = byte_len(buffer);
    proof { lemma_offset_end(buffer@); }
    let mut acc: usize = 0;
    let mut i: usize = 0;
    proof {
        assert(buffer@.take(0) =~= Seq::<char>::empty());
    }
    while i < cs.len() && acc < cursor
        invariant
            cs@ == buffer@,
            i <= cs.len(),
            acc == crate::text::byte_offset(buffer@, i as int),
            total == utf8_len(buffer@),
            total <= isize::MAX,
            crate::text::byte_offset(buffer@, cs.len() as int) == total,
            forall|k: int| 0 <= k < i ==> crate::text::byte_offset(buffer@, k) < cursor,
        decreases cs.len() - i,
    {
        proof {
            lemma_offset_step(buffer@, i as int);
            if i + 1 < cs.len() {
                crate::text::lemma_offset_increases(buffer@, i + 1, cs.len() as int);
            }
        }
        let w = char_width_of(cs[i]);
        assert(acc + w == crate::text::byte_offset(buffer@, i + 1));
        acc = acc + w;
        i = i + 1;
    }
    proof {
        if acc == cursor {
            assert(crate::text::byte_offset(buffer@, i as int) == cursor);
        } else {
            assert forall|k: int| 0 <= k <= buffer@.len() implies #[trigger] crate::text::byte_offset(buffer@, k) != cursor by {
                if k > i {
                    crate::text::lemma_offset_increases(buffer@, i as int, k);
                }
            }
        }
    }
    acc == cursor
}

/// `ceil(w / d)` as quotient plus one for a remainder.
proof fn lemma_div_ceil(w: nat, d: nat)
    requires
        d > 0,
    ensures
        ((w + d - 1) as nat) / d == w / d + if w % d == 0 { 0nat } else { 1nat },
{
    assert(((w + d - 1) as nat) / d == w / d + if w % d == 0 { 0nat } else { 1nat }) by (nonlinear_arith)
        requires d > 0;
}

/// The parts of the state the invariant reads are the same in `a` and `b`.
pub open spec fn same_shape(a: AppView, b: AppView) -> bool {
    &&& a.feeds.len() == b.feeds.len()
    &&& a.selected_feed == b.selected_feed
    &&& a.mode == b.mode
    &&& a.input_buffer == b.input_buffer
    &&& a.input_cursor == b.input_cursor
}

proof fn lemma_spawn_shape(s: AppView, url: Seq<char>)
    ensures
        same_shape(s, spawn_fetch_spec(s, url).app),
        spawn_fetch_spec(s, url).app.feeds == s.feeds,
{
}

proof fn lemma_spawn_all_shape(s: AppView, urls: Seq<Seq<char>>)
    ensures
        same_shape(s, spawn_all(s, urls).app),
        spawn_all(s, urls).app.feeds == s.feeds,
    decreases urls.len(),
{
    if urls.len() > 0 {
        lemma_spawn_all_shape(s, urls.drop_last());
        lemma_spawn_shape(spawn_all(s, urls.drop_last()).app, urls.last());
    }
}

proof fn lemma_mark_read_shape(s: AppView, read: bool)
    ensures
        same_shape(s, mark_read_spec(s, read).app),
{
}

proof fn lemma_normal_keeps_wf(s0: AppView, k: Key)
    requires
        app_wf(s0),
        s0.mode == AppMode::Normal,
    ensures
        app_wf(normal_key_spec(s0, k).app),
{
    let s = AppView { status: None, ..s0 };
    lemma_mark_read_shape(s, true);
    lemma_mark_read_shape(s, false);
    lemma_mark_read_shape(AppView { active_pane: ActivePane::Preview, preview_scroll: 0, ..s }, true);
    lemma_spawn_all_shape(s, s.feeds.map_values(|f: FeedEntryView| f.url));
    if s.selected_feed < s.feeds.len() {
        lemma_spawn_shape(s, s.feeds[s.selected_feed as int].url);
    }
    crate::text::lemma_boundary_at(Seq::<char>::empty(), 0);
    assert(Seq::<char>::empty().take(0) =~= Seq::<char>::empty());
}

proof fn lemma_adding_keeps_wf(s: AppView, k: Key)
    requires
        app_wf(s),
        s.mode == AppMode::AddingFeed,
        key_ok(s, k),
    ensures
        app_wf(adding_key_spec(s, k).app),
{
    let cur = s.input_cursor;
    let buf = s.input_buffer;
    let i = char_index(buf, cur as int);
    match k.code {
        KeyCode::Enter => {
            let url = trim(s.input_buffer);
            if url.len() > 0 && !subscribed(s.feeds, url) {
                let feeds = s.feeds.push(entry_from_config(FeedConfigView { url, read_ids: Set::empty() }));
                let i = (feeds.len() - 1) as usize;
                let s2 = AppView {
                    feeds,
                    selected_feed: i,
                    feed_selection: Some(i),
                    article_selection: None,
                    selected_article: 0,
                    ..s
                };
                lemma_spawn_shape(s2, url);
            }
        },
        KeyCode::Backspace => {
            lemma_char_index(buf, cur as int);
            if i > 0 {
                lemma_offset_step(buf, i - 1);
                lemma_offset_remove(buf, i - 1);
                lemma_boundary_at(buf.remove(i - 1), i - 1);
            }
        },
        KeyCode::Delete => {
            lemma_char_index(buf, cur as int);
            if i < buf.len() {
                lemma_offset_remove(buf, i);
                lemma_boundary_at(buf.remove(i), i);
            }
        },
        KeyCode::Left => {
            lemma_char_index(buf, cur as int);
            if i > 0 {
                lemma_offset_step(buf, i - 1);
                lemma_boundary_at(buf, i - 1);
            } else {
                lemma_boundary_at(buf, 0);
                assert(buf.take(0) =~= Seq::<char>::empty());
            }
        },
        KeyCode::Right => {
            lemma_char_index(buf, cur as int);
            if i < buf.len() {
                lemma_offset_step(buf, i);
                lemma_boundary_at(buf, i + 1);
                lemma_offset_end(buf);
                if i + 1 < buf.len() {
                    crate::text::lemma_offset_increases(buf, i + 1, buf.len() as int);
                }
            }
        },
        KeyCode::Home => {
            lemma_boundary_at(buf, 0);
            assert(buf.take(0) =~= Seq::<char>::empty());
        },
        KeyCode::End => {
            lemma_offset_end(buf);
            lemma_boundary_at(buf, buf.len() as int);
        },
        KeyCode::Char(c) => {
            lemma_char_index(buf, cur as int);
            lemma_offset_insert(buf, i, c);
            lemma_boundary_at(buf.insert(i, c), i + 1);
            lemma_offset_end(buf.insert(i, c));
            if i + 1 < buf.len() + 1 {
                crate::text::lemma_offset_increases(buf.insert(i, c), i + 1, (buf.len() + 1) as int);
            }
        },
        _ => {},
    }
}

/// Every key the state can take leaves the state invariant in force.
pub proof fn lemma_key_keeps_wf(s: AppView, k: Key)
    requires
        app_wf(s),
        key_ok(s, k),
    ensures
        app_wf(handle_key_spec(s, k).app),
{
    match s.mode {
        AppMode::Normal => lemma_normal_keeps_wf(s, k),
        AppMode::AddingFeed => lemma_adding_keeps_wf(s, k),
        AppMode::ConfirmDelete => {},
    }
}

} // verus!
