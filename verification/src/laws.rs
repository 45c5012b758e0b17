//! Properties of the reader that span several operations.

use vstd::prelude::*;

use crate::app::{
    app_wf, apply_message_spec, apply_messages, article_count, config_of, entry_from_config,
    find_feed, handle_key_spec,
    has_selected_article, initial_app, key_ok, lemma_find_feed, lemma_key_keeps_wf,
    mark_read_spec, max_scroll, scrolled_down, selected_article_of, spawn_all, spawn_fetch_spec,
    storage_of, subscribed, with_read, ActivePane, AppMode, AppView, FeedEntryView,
    FeedMessageView, Key, KeyCode,
};
use crate::markdown::{
    bullet, markdown_events, next_number, render_events, run_events, step, top_style, ListKind,
    MdEventView, MdTag, RenderState,
};
use crate::feed::{ArticleView, FeedDataView};
use crate::storage::FeedConfigView;
use crate::style::{plain, span_of, with_fg, with_modifier, Color, Modifier, SpanView};
use crate::text::{decimal, trim};
use crate::ui::{article_item_spec, cursor_line_spec, feed_item_spec, line_text, preview_lines_spec, ERROR_COLOR, LOADING_COLOR};

verus! {

// ── Persistence ────────────────────────────────────────────────────────────

/// A stored record turned into a feed entry and back is the same record.
pub proof fn law_entry_config_round_trip(c: FeedConfigView)
    ensures
        config_of(entry_from_config(c)) == c,
{
}

/// Saving right after loading writes back exactly the stored subscriptions,
/// in the same order.
pub proof fn law_load_then_save(config: Seq<FeedConfigView>)
    ensures
        storage_of(initial_app(config).feeds) == config,
{
    assert(storage_of(initial_app(config).feeds) =~= config);
}

// ── The state invariant ────────────────────────────────────────────────────

/// The state a stored configuration starts in satisfies the invariant.
pub proof fn law_initial_state_well_formed(config: Seq<FeedConfigView>)
    ensures
        app_wf(initial_app(config)),
{
}

/// Every key the state can take keeps the invariant: the selected feed
/// exists, and the add-feed cursor stays on a character boundary of its text.
pub proof fn law_keys_keep_invariant(s: AppView, k: Key)
    requires
        app_wf(s),
        key_ok(s, k),
    ensures
        app_wf(handle_key_spec(s, k).app),
{
    lemma_key_keeps_wf(s, k);
}

/// Fetch results never change which feed is selected, the mode or the typed
/// text, so they keep the invariant.
pub proof fn law_messages_keep_invariant(s: AppView, msgs: Seq<FeedMessageView>, now: i64)
    requires
        app_wf(s),
    ensures
        app_wf(apply_messages(s, msgs, now)),
    decreases msgs.len(),
{
    if msgs.len() > 0 {
        law_messages_keep_invariant(s, msgs.drop_last(), now);
        let before = apply_messages(s, msgs.drop_last(), now);
        match msgs.last() {
            FeedMessageView::FetchDone { url, result } => {
                lemma_find_feed(before.feeds, url);
            },
        }
    }
}

// ── Read state ─────────────────────────────────────────────────────────────

/// When an article's read flag agrees with its feed's read IDs, marking it
/// the other way and back again restores the whole state.
pub proof fn law_toggle_read_twice(s: AppView)
    requires
        has_selected_article(s),
        selected_article_of(s).read == s.feeds[s.selected_feed as int].read_ids.contains(
            selected_article_of(s).id,
        ),
    ensures
        mark_read_spec(
            mark_read_spec(s, !selected_article_of(s).read).app,
            selected_article_of(s).read,
        ).app == s,
{
    let i = s.selected_feed as int;
    let j = s.selected_article as int;
    let f = s.feeds[i];
    let a = f.articles[j];
    let f1 = with_read(f, j, !a.read);
    let f2 = with_read(f1, j, a.read);
    assert(f2.articles =~= f.articles);
    assert(f2.read_ids =~= f.read_ids);
    assert(f2 == f);
    let s1 = mark_read_spec(s, !a.read).app;
    assert(s1.feeds[i] == f1);
    assert(mark_read_spec(s1, a.read).app.feeds =~= s.feeds);
}

// ── Focus ──────────────────────────────────────────────────────────────────

proof fn lemma_mark_read_keeps_pane_and_mode(s: AppView, read: bool)
    ensures
        mark_read_spec(s, read).app.active_pane == s.active_pane,
        mark_read_spec(s, read).app.mode == s.mode,
{
}

/// In normal mode, `Tab` then `BackTab` gives focus back to the pane that had it.
pub proof fn law_tab_then_backtab(s: AppView)
    requires
        s.mode == AppMode::Normal,
    ensures
        handle_key_spec(
            handle_key_spec(s, Key { code: KeyCode::Tab, ctrl: false }).app,
            Key { code: KeyCode::BackTab, ctrl: false },
        ).app.active_pane == s.active_pane,
{
    let s0 = AppView { status: None, ..s };
    lemma_mark_read_keeps_pane_and_mode(s0, true);
    let s1 = handle_key_spec(s, Key { code: KeyCode::Tab, ctrl: false }).app;
    lemma_mark_read_keeps_pane_and_mode(AppView { status: None, ..s1 }, true);
}

/// In normal mode, three presses of `Tab` cycle the focus back to where it was.
pub proof fn law_three_tabs_cycle(s: AppView)
    requires
        s.mode == AppMode::Normal,
    ensures
        ({
            let tab = Key { code: KeyCode::Tab, ctrl: false };
            handle_key_spec(handle_key_spec(handle_key_spec(s, tab).app, tab).app, tab).app.active_pane
                == s.active_pane
        }),
{
    let tab = Key { code: KeyCode::Tab, ctrl: false };
    lemma_mark_read_keeps_pane_and_mode(AppView { status: None, ..s }, true);
    let s1 = handle_key_spec(s, tab).app;
    lemma_mark_read_keeps_pane_and_mode(AppView { status: None, ..s1 }, true);
    let s2 = handle_key_spec(s1, tab).app;
    lemma_mark_read_keeps_pane_and_mode(AppView { status: None, ..s2 }, true);
}

/// In the articles pane, moving down a row and back up again returns to the
/// row the reader was on, with the preview at the top and nothing else
/// changed but the cleared status bar.
pub proof fn law_down_then_up(s: AppView)
    requires
        s.mode == AppMode::Normal,
        s.active_pane == ActivePane::Articles,
        s.selected_article + 1 < article_count(s),
        article_count(s) <= usize::MAX,
    ensures
        handle_key_spec(
            handle_key_spec(s, Key { code: KeyCode::Char('j'), ctrl: false }).app,
            Key { code: KeyCode::Char('k'), ctrl: false },
        ).app == (AppView {
            status: None,
            article_selection: Some(s.selected_article),
            preview_scroll: 0,
            ..s
        }),
{
    let j = Key { code: KeyCode::Char('j'), ctrl: false };
    let k = Key { code: KeyCode::Char('k'), ctrl: false };
    let s0 = AppView { status: None, ..s };
    let a = (s.selected_article + 1) as usize;
    let s1 = AppView { selected_article: a, article_selection: Some(a), preview_scroll: 0, ..s0 };
    assert(handle_key_spec(s, j).app == s1);
    assert(article_count(s1) == article_count(s));
    assert(handle_key_spec(s1, k).app == (AppView {
        status: None,
        article_selection: Some(s.selected_article),
        preview_scroll: 0,
        ..s
    }));
}

/// Jumping to the bottom of the focused list a second time changes nothing
/// more and asks for nothing.
pub proof fn law_bottom_twice(s: AppView)
    requires
        s.mode == AppMode::Normal,
    ensures
        ({
            let key = Key { code: KeyCode::Char('G'), ctrl: false };
            let once = handle_key_spec(s, key);
            &&& handle_key_spec(once.app, key).app == once.app
            &&& handle_key_spec(once.app, key).effects.len() == 0
        }),
{
}

/// In the add-feed dialog, typing any character and then `Backspace` gives
/// back the text and the cursor as they were.
pub proof fn law_type_then_backspace(s: AppView, c: char)
    requires
        app_wf(s),
        s.mode == AppMode::AddingFeed,
        key_ok(s, Key { code: KeyCode::Char(c), ctrl: false }),
    ensures
        handle_key_spec(
            handle_key_spec(s, Key { code: KeyCode::Char(c), ctrl: false }).app,
            Key { code: KeyCode::Backspace, ctrl: false },
        ).app == s,
{
    let buf = s.input_buffer;
    let cur = s.input_cursor;
    crate::text::lemma_char_index(buf, cur as int);
    let i = crate::text::char_index(buf, cur as int);
    crate::text::lemma_offset_insert(buf, i, c);
    crate::text::lemma_boundary_at(buf.insert(i, c), i + 1);
    crate::text::lemma_offset_end(buf);
    if i < buf.len() {
        crate::text::lemma_offset_increases(buf, i, buf.len() as int);
    }
    let b2 = buf.insert(i, c);
    assert(b2.remove(i) =~= buf);
    assert(b2[i] == c);
    let cur2 = (cur + crate::text::char_width(c)) as usize;
    assert(cur2 as int == crate::text::byte_offset(b2, i + 1) as int);
    let s1 = AppView { input_buffer: b2, input_cursor: cur2, ..s };
    assert(handle_key_spec(s, Key { code: KeyCode::Char(c), ctrl: false }).app == s1);
    assert(crate::text::char_index(b2, cur2 as int) == i + 1);
    assert(handle_key_spec(s1, Key { code: KeyCode::Backspace, ctrl: false }).app == s);
}

// ── Behaviour the screen relies on ─────────────────────────────────────────

/// An image only hides its own alt text: after the image closes, following
/// text is rendered again, in the style that was in force, right after the
/// `[image]` placeholder on the same line.
pub proof fn law_text_after_image_is_shown(st: RenderState, a: Seq<char>, b: Seq<char>)
    requires
        !st.in_code_block,
    ensures
        ({
            let s4 = step(
                step(step(step(st, MdEventView::Start(MdTag::Image)), MdEventView::Text(a)), MdEventView::End(MdTag::Image)),
                MdEventView::Text(b),
            );
            &&& s4.lines == st.lines
            &&& s4.styles == st.styles
            &&& !s4.in_image
            &&& s4.current == st.current.push(span_of("[image]"@, with_fg(plain(), Color::DarkGray))).push(
                span_of(b, top_style(st.styles)),
            )
        }),
{
}

/// A batch of fetch results is applied message by message, in order: the
/// batch with one more message is the shorter batch followed by that message.
pub proof fn law_batch_applies_every_message(s: AppView, msgs: Seq<FeedMessageView>, m: FeedMessageView, now: i64)
    ensures
        apply_messages(s, msgs.push(m), now) == apply_message_spec(apply_messages(s, msgs, now), m, now),
{
    assert(msgs.push(m).drop_last() =~= msgs);
}

/// After a batch of fetch results, no URL that any of them answers is still
/// loading.
pub proof fn law_batch_ends_loading(s: AppView, msgs: Seq<FeedMessageView>, now: i64)
    ensures
        forall|k: int| 0 <= k < msgs.len() ==> !apply_messages(s, msgs, now).loading.contains(
            #[trigger] msgs[k]->FetchDone_url,
        ),
    decreases msgs.len(),
{
    if msgs.len() > 0 {
        let init = msgs.drop_last();
        law_batch_ends_loading(s, init, now);
        let before = apply_messages(s, init, now);
        let after = apply_messages(s, msgs, now);
        assert(after == apply_message_spec(before, msgs.last(), now));
        assert(after.loading == before.loading.remove(msgs.last()->FetchDone_url));
        assert forall|k: int| 0 <= k < msgs.len() implies !after.loading.contains(#[trigger] msgs[k]->FetchDone_url) by {
            if k < msgs.len() - 1 {
                assert(init[k] == msgs[k]);
            }
        }
    }
}

/// With an article selected, the preview shows that article: its title in
/// bold white as the first line, and its summary rendered from Markdown as the
/// last lines.
pub proof fn law_preview_shows_selected_article(s: AppView, width: u16)
    requires
        s.selected_feed < s.feeds.len(),
        s.selected_article < s.feeds[s.selected_feed as int].articles.len(),
    ensures
        ({
            let a = s.feeds[s.selected_feed as int].articles[s.selected_article as int];
            let body = render_events(markdown_events(a.summary));
            &&& preview_lines_spec(s, width) is Some
            &&& preview_lines_spec(s, width)->0[0] == seq![
                span_of(a.title, with_fg(with_modifier(plain(), Modifier::Bold), Color::White)),
            ]
            &&& preview_lines_spec(s, width)->0.len() >= body.len()
            &&& preview_lines_spec(s, width)->0.skip(preview_lines_spec(s, width)->0.len() - body.len()) == body
        }),
{
    let a = s.feeds[s.selected_feed as int].articles[s.selected_article as int];
    let rule_width: nat = if width >= 2 { (width - 2) as nat } else { 0 };
    let head = crate::ui::preview_header(a, rule_width);
    let body = render_events(markdown_events(a.summary));
    let ls = preview_lines_spec(s, width)->0;
    assert(ls == head + body);
    assert(ls.skip(head.len() as int) =~= body);
}

/// In normal mode with the preview focused, `k` scrolls up three rows
/// (stopping at the top) and `j` scrolls down three rows (stopping where the
/// last content row is at the bottom of the pane).
pub proof fn law_preview_scroll_keys(s: AppView)
    requires
        s.mode == AppMode::Normal,
        s.active_pane == ActivePane::Preview,
    ensures
        handle_key_spec(s, Key { code: KeyCode::Char('k'), ctrl: false }).app.preview_scroll == if s.preview_scroll
            >= 3 {
            s.preview_scroll - 3
        } else {
            0
        },
        ({
            let bottom: int = if s.preview_content_lines > s.preview_area_height {
                s.preview_content_lines - s.preview_area_height
            } else {
                0
            };
            let down = handle_key_spec(s, Key { code: KeyCode::Char('j'), ctrl: false }).app.preview_scroll;
            &&& down <= bottom
            &&& (s.preview_scroll + 3 <= bottom ==> down == s.preview_scroll + 3)
            &&& (s.preview_scroll + 3 > bottom ==> down == bottom)
        }),
{
}

/// A feed row's badge: `[...]` in the loading colour while a fetch is in
/// flight; otherwise `[!]` in the error colour after a failed fetch, whatever
/// its unread count.
pub proof fn law_feed_badge_precedence(f: FeedEntryView, loading: bool)
    ensures
        loading ==> feed_item_spec(f, loading).last() == span_of(" [...]"@, with_fg(plain(), LOADING_COLOR)),
        !loading && f.fetch_error is Some ==> feed_item_spec(f, loading).last() == span_of(
            " [!]"@,
            with_fg(plain(), ERROR_COLOR),
        ),
        feed_item_spec(f, loading)[0].content == f.title,
        feed_item_spec(f, loading).len() == 2,
{
}

/// A fetch result changes only the first feed with its URL.  On success that
/// feed takes the fetched title and exactly the fetched articles, in order,
/// each read exactly when its id is among the feed's read IDs, and its error
/// is cleared; on failure it keeps its articles, records the error, and the
/// status bar shows an error.
pub proof fn law_fetch_result_updates_its_feed(
    s: AppView,
    url: Seq<char>,
    result: Result<FeedDataView, Seq<char>>,
    now: i64,
)
    requires
        0 <= find_feed(s.feeds, url),
    ensures
        ({
            let i = find_feed(s.feeds, url);
            let t = apply_message_spec(s, FeedMessageView::FetchDone { url, result }, now);
            &&& t.feeds.len() == s.feeds.len()
            &&& forall|j: int| 0 <= j < s.feeds.len() && j != i ==> #[trigger] t.feeds[j] == s.feeds[j]
            &&& t.feeds[i].url == s.feeds[i].url
            &&& t.feeds[i].read_ids == s.feeds[i].read_ids
            &&& match result {
                Ok(data) => {
                    &&& t.feeds[i].title == data.title
                    &&& t.feeds[i].fetch_error is None
                    &&& t.feeds[i].articles.len() == data.articles.len()
                    &&& forall|k: int| 0 <= k < data.articles.len() ==> {
                        &&& (#[trigger] t.feeds[i].articles[k]).id == data.articles[k].id
                        &&& t.feeds[i].articles[k].title == data.articles[k].title
                        &&& t.feeds[i].articles[k].summary == data.articles[k].summary
                        &&& t.feeds[i].articles[k].read == s.feeds[i].read_ids.contains(data.articles[k].id)
                    }
                },
                Err(e) => {
                    &&& t.feeds[i].fetch_error == Some(e)
                    &&& t.feeds[i].articles == s.feeds[i].articles
                    &&& t.status matches Some((_, level)) && level == crate::app::StatusLevel::Error
                },
            }
        }),
{
    lemma_find_feed(s.feeds, url);
}

/// An article's row starts with `* ` while it is unread and two spaces once
/// it is read, then shows its title.
pub proof fn law_article_row_marks_unread(a: ArticleView)
    ensures
        article_item_spec(a).len() == 3,
        article_item_spec(a)[0].content == if a.read { "  "@ } else { "* "@ },
        article_item_spec(a)[1].content == a.title,
{
}

// ── Background fetches ─────────────────────────────────────────────────────

/// A fetch already in flight is not started a second time.
pub proof fn law_fetch_not_repeated(s: AppView, url: Seq<char>)
    ensures
        spawn_fetch_spec(spawn_fetch_spec(s, url).app, url).effects == Seq::<crate::app::EffectView>::empty(),
        spawn_fetch_spec(spawn_fetch_spec(s, url).app, url).app == spawn_fetch_spec(s, url).app,
{
}

/// Once a fetch result for a URL arrives, that URL is no longer loading.
pub proof fn law_result_ends_loading(s: AppView, m: FeedMessageView, now: i64)
    ensures
        match m {
            FeedMessageView::FetchDone { url, result: _ } => !apply_message_spec(s, m, now).loading.contains(url),
        },
{
}

/// After a successful fetch of the selected feed, its article row is valid:
/// nothing is highlighted when the new list is empty, and otherwise both the
/// selected row and the highlighted row lie within the new list.
pub proof fn law_fetch_keeps_row_valid(s: AppView, url: Seq<char>, data: FeedDataView, now: i64)
    requires
        app_wf(s),
        s.feeds.len() > 0,
        find_feed(s.feeds, url) == s.selected_feed,
    ensures
        ({
            let t = apply_message_spec(s, FeedMessageView::FetchDone { url, result: Ok(data) }, now);
            let n = article_count(t);
            &&& t.selected_feed == s.selected_feed
            &&& (n == 0 ==> t.selected_article == 0 && t.article_selection is None)
            &&& (n > 0 ==> t.selected_article < n && (t.article_selection matches Some(k) && k < n))
        }),
{
}

// ── Preview scrolling ──────────────────────────────────────────────────────

/// Scrolling down never moves past the end of the previewed content.
pub proof fn law_scroll_within_content(s: AppView, by: u16)
    ensures
        scrolled_down(s, by) <= max_scroll(s),
{
}

// ── Subscriptions ──────────────────────────────────────────────────────────

/// No two subscriptions share a URL.
pub open spec fn unique_urls(feeds: Seq<FeedEntryView>) -> bool {
    forall|i: int, j: int| 0 <= i < feeds.len() && 0 <= j < feeds.len() && i != j ==> feeds[i].url != feeds[j].url
}

proof fn lemma_spawn_all_feeds(s: AppView, urls: Seq<Seq<char>>)
    ensures
        spawn_all(s, urls).app.feeds == s.feeds,
    decreases urls.len(),
{
    if urls.len() > 0 {
        lemma_spawn_all_feeds(s, urls.drop_last());
    }
}

proof fn lemma_mark_read_keeps_urls(s: AppView, read: bool)
    ensures
        mark_read_spec(s, read).app.feeds.len() == s.feeds.len(),
        forall|i: int| 0 <= i < s.feeds.len() ==> #[trigger] mark_read_spec(s, read).app.feeds[i].url == s.feeds[i].url,
{
}

/// Keys never give two subscriptions the same URL: adding a feed whose URL
/// is already subscribed does nothing.
pub proof fn law_keys_keep_urls_unique(s: AppView, k: Key)
    requires
        app_wf(s),
        unique_urls(s.feeds),
    ensures
        unique_urls(handle_key_spec(s, k).app.feeds),
{
    let r = handle_key_spec(s, k).app.feeds;
    match s.mode {
        AppMode::Normal => {
            let s0 = AppView { status: None, ..s };
            lemma_mark_read_keeps_urls(s0, true);
            lemma_mark_read_keeps_urls(s0, false);
            lemma_mark_read_keeps_urls(AppView { active_pane: ActivePane::Preview, preview_scroll: 0, ..s0 }, true);
            lemma_spawn_all_feeds(s0, s0.feeds.map_values(|f: FeedEntryView| f.url));
        },
        AppMode::AddingFeed => {
            if k.code == KeyCode::Enter {
                let url = trim(s.input_buffer);
                if url.len() > 0 && !subscribed(s.feeds, url) {
                    assert forall|i: int, j: int| 0 <= i < r.len() && 0 <= j < r.len() && i != j implies r[i].url != r[j].url by {
                        if i == s.feeds.len() as int {
                            assert(r[j] == s.feeds[j]);
                        } else if j == s.feeds.len() as int {
                            assert(r[i] == s.feeds[i]);
                        } else {
                            assert(r[i] == s.feeds[i] && r[j] == s.feeds[j]);
                        }
                    }
                }
            }
        },
        AppMode::ConfirmDelete => {
            let d = s.selected_feed as int;
            assert forall|i: int, j: int| 0 <= i < r.len() && 0 <= j < r.len() && i != j implies r[i].url != r[j].url by {
                if (k.code == KeyCode::Char('y') || k.code == KeyCode::Char('Y')) && s.feeds.len() > 0 {
                    let ii = if i < d { i } else { i + 1 };
                    let jj = if j < d { j } else { j + 1 };
                    assert(r[i] == s.feeds[ii]);
                    assert(r[j] == s.feeds[jj]);
                }
            }
        },
    }
}

// ── Add-feed dialog ────────────────────────────────────────────────────────

/// The input line shows exactly the typed text, with a caret space appended
/// when the cursor is at or past its end.
pub proof fn law_cursor_line_shows_text(buffer: Seq<char>, cursor: nat)
    ensures
        line_text(cursor_line_spec(buffer, cursor)) == if cursor < buffer.len() { buffer } else { buffer + " "@ },
{
    reveal_with_fuel(line_text, 4);
    let c = if cursor < buffer.len() { cursor } else { buffer.len() };
    let l = cursor_line_spec(buffer, cursor);
    if c < buffer.len() {
        assert(l.drop_last().drop_last().drop_last() =~= Seq::<SpanView>::empty());
        assert(l.drop_last().drop_last().last() == l[0]);
        assert(l.drop_last().last() == l[1]);
        assert(buffer.take(c as int) + buffer.subrange(c as int, (c + 1) as int) + buffer.skip((c + 1) as int) =~= buffer);
    } else {
        assert(l.drop_last().drop_last() =~= Seq::<SpanView>::empty());
        assert(l.drop_last().last() == l[0]);
    }
}

// ── Markdown rendering ─────────────────────────────────────────────────────

/// A paragraph of plain text renders as one line holding the text in the
/// plain style, followed by a blank line.
pub proof fn law_plain_paragraph(t: Seq<char>)
    ensures
        render_events(seq![
            MdEventView::Start(MdTag::Paragraph),
            MdEventView::Text(t),
            MdEventView::End(MdTag::Paragraph),
        ]) == seq![seq![span_of(t, plain())], Seq::<SpanView>::empty()],
{
    let evs = seq![
        MdEventView::Start(MdTag::Paragraph),
        MdEventView::Text(t),
        MdEventView::End(MdTag::Paragraph),
    ];
    reveal_with_fuel(run_events, 4);
    assert(evs.drop_last().drop_last().drop_last() =~= Seq::<MdEventView>::empty());
    assert(evs.drop_last().drop_last().last() == evs[0]);
    assert(evs.drop_last().last() == evs[1]);
    assert(render_events(evs) =~~= seq![seq![span_of(t, plain())], Seq::<SpanView>::empty()]);
}

/// The items of an ordered list are numbered consecutively from its start
/// number, each on its own line, and the list is followed by a blank line.
pub proof fn law_ordered_list_numbering(n: u64, a: Seq<char>, b: Seq<char>)
    requires
        n < u64::MAX,
    ensures
        render_events(seq![
            MdEventView::Start(MdTag::List(Some(n))),
            MdEventView::Start(MdTag::Item),
            MdEventView::Text(a),
            MdEventView::End(MdTag::Item),
            MdEventView::Start(MdTag::Item),
            MdEventView::Text(b),
            MdEventView::End(MdTag::Item),
            MdEventView::End(MdTag::List(Some(n))),
        ]) == seq![
            seq![span_of(decimal(n as nat) + ". "@, with_fg(plain(), Color::Yellow)), span_of(a, plain())],
            seq![span_of(decimal((n + 1) as nat) + ". "@, with_fg(plain(), Color::Yellow)), span_of(b, plain())],
            Seq::<SpanView>::empty(),
        ],
{
    let evs = seq![
        MdEventView::Start(MdTag::List(Some(n))),
        MdEventView::Start(MdTag::Item),
        MdEventView::Text(a),
        MdEventView::End(MdTag::Item),
        MdEventView::Start(MdTag::Item),
        MdEventView::Text(b),
        MdEventView::End(MdTag::Item),
        MdEventView::End(MdTag::List(Some(n))),
    ];
    let e1 = evs.take(1);
    let e2 = evs.take(2);
    let e3 = evs.take(3);
    let e4 = evs.take(4);
    let e5 = evs.take(5);
    let e6 = evs.take(6);
    let e7 = evs.take(7);
    assert(e1.drop_last() =~= Seq::<MdEventView>::empty());
    assert(e2.drop_last() =~= e1);
    assert(e3.drop_last() =~= e2);
    assert(e4.drop_last() =~= e3);
    assert(e5.drop_last() =~= e4);
    assert(e6.drop_last() =~= e5);
    assert(e7.drop_last() =~= e6);
    assert(evs.drop_last() =~= e7);
    reveal_with_fuel(run_events, 2);
    assert(e1.last() == evs[0] && e2.last() == evs[1] && e3.last() == evs[2] && e4.last() == evs[3]);
    assert(e5.last() == evs[4] && e6.last() == evs[5] && e7.last() == evs[6]);
    let r1 = run_events(e1);
    assert(r1.lists =~= seq![ListKind::Ordered(n)]);
    let r2 = run_events(e2);
    assert(bullet(r1.lists) =~= crate::text::repeat("  "@, 0) + decimal(n as nat) + ". "@);
    assert(crate::text::repeat("  "@, 0) =~= Seq::<char>::empty());
    assert(r2.lists =~= seq![ListKind::Ordered(next_number(n))]);
    let r3 = run_events(e3);
    let r4 = run_events(e4);
    assert(r4.lists =~= seq![ListKind::Ordered(next_number(n))]);
    let sa = span_of(decimal(n as nat) + ". "@, with_fg(plain(), Color::Yellow));
    let sb = span_of(decimal((n + 1) as nat) + ". "@, with_fg(plain(), Color::Yellow));
    assert(r2.current =~= seq![sa]);
    assert(r2.in_image == false && r2.in_code_block == false);
    assert(r3.current =~= seq![sa, span_of(a, plain())]);
    assert(r4.lines =~~= seq![seq![sa, span_of(a, plain())]]);
    assert(r4.current =~= Seq::<SpanView>::empty());
    let r5 = run_events(e5);
    assert(bullet(r4.lists) =~= crate::text::repeat("  "@, 0) + decimal((n + 1) as nat) + ". "@);
    assert(r5.current =~= seq![sb]);
    let r6 = run_events(e6);
    assert(r6.current =~= seq![sb, span_of(b, plain())]);
    let r7 = run_events(e7);
    assert(r7.lines =~~= seq![seq![sa, span_of(a, plain())], seq![sb, span_of(b, plain())]]);
    assert(r7.lists.len() == 1);
    let r8 = run_events(evs);
    assert(r8.current.len() == 0);
    assert(render_events(evs) =~~= seq![
        seq![span_of(decimal(n as nat) + ". "@, with_fg(plain(), Color::Yellow)), span_of(a, plain())],
        seq![span_of(decimal((n + 1) as nat) + ". "@, with_fg(plain(), Color::Yellow)), span_of(b, plain())],
        Seq::<SpanView>::empty(),
    ]);
}

/// Every item of a nested list starts a line of its own: the inner item's
/// bullet, indented two spaces for the extra level, does not join the line of
/// the item that holds it.
pub proof fn law_nested_item_own_line(a: Seq<char>, b: Seq<char>)
    ensures
        render_events(seq![
            MdEventView::Start(MdTag::List(None)),
            MdEventView::Start(MdTag::Item),
            MdEventView::Text(a),
            MdEventView::Start(MdTag::List(None)),
            MdEventView::Start(MdTag::Item),
            MdEventView::Text(b),
            MdEventView::End(MdTag::Item),
            MdEventView::End(MdTag::List(None)),
            MdEventView::End(MdTag::Item),
            MdEventView::End(MdTag::List(None)),
        ]) == seq![
            seq![span_of("\u{2022} "@, with_fg(plain(), Color::Yellow)), span_of(a, plain())],
            seq![span_of("  \u{2022} "@, with_fg(plain(), Color::Yellow)), span_of(b, plain())],
            Seq::<SpanView>::empty(),
            Seq::<SpanView>::empty(),
        ],
{
    let evs = seq![
        MdEventView::Start(MdTag::List(None)),
        MdEventView::Start(MdTag::Item),
        MdEventView::Text(a),
        MdEventView::Start(MdTag::List(None)),
        MdEventView::Start(MdTag::Item),
        MdEventView::Text(b),
        MdEventView::End(MdTag::Item),
        MdEventView::End(MdTag::List(None)),
        MdEventView::End(MdTag::Item),
        MdEventView::End(MdTag::List(None)),
    ];
    let e1 = evs.take(1);
    let e2 = evs.take(2);
    let e3 = evs.take(3);
    let e4 = evs.take(4);
    let e5 = evs.take(5);
    let e6 = evs.take(6);
    let e7 = evs.take(7);
    let e8 = evs.take(8);
    let e9 = evs.take(9);
    assert(e1.drop_last() =~= Seq::<MdEventView>::empty());
    assert(e2.drop_last() =~= e1);
    assert(e3.drop_last() =~= e2);
    assert(e4.drop_last() =~= e3);
    assert(e5.drop_last() =~= e4);
    assert(e6.drop_last() =~= e5);
    assert(e7.drop_last() =~= e6);
    assert(e8.drop_last() =~= e7);
    assert(e9.drop_last() =~= e8);
    assert(evs.drop_last() =~= e9);
    reveal_with_fuel(run_events, 2);
    assert(e1.last() == evs[0] && e2.last() == evs[1] && e3.last() == evs[2] && e4.last() == evs[3]);
    assert(e5.last() == evs[4] && e6.last() == evs[5] && e7.last() == evs[6] && e8.last() == evs[7]);
    assert(e9.last() == evs[8]);
    let sa = span_of("\u{2022} "@, with_fg(plain(), Color::Yellow));
    let sb = span_of("  \u{2022} "@, with_fg(plain(), Color::Yellow));
    let r1 = run_events(e1);
    assert(r1.lists =~= seq![ListKind::Unordered]);
    assert(bullet(r1.lists) =~= "\u{2022} "@) by {
        assert(crate::text::repeat("  "@, 0) =~= Seq::<char>::empty());
    }
    let r2 = run_events(e2);
    assert(r2.current =~= seq![sa]);
    assert(r2.in_image == false && r2.in_code_block == false && r2.lines.len() == 0);
    let r3 = run_events(e3);
    assert(r3.current =~= seq![sa, span_of(a, plain())]);
    let r4 = run_events(e4);
    assert(r4.lists =~= seq![ListKind::Unordered, ListKind::Unordered]);
    assert(bullet(r4.lists) =~= "  \u{2022} "@) by {
        reveal_with_fuel(crate::text::repeat, 2);
        reveal_strlit("  ");
        reveal_strlit("\u{2022} ");
        reveal_strlit("  \u{2022} ");
        assert(crate::text::repeat("  "@, 1) =~= "  "@);
    }
    let r5 = run_events(e5);
    assert(r5.lines =~~= seq![seq![sa, span_of(a, plain())]]);
    assert(r5.current =~= seq![sb]);
    let r6 = run_events(e6);
    assert(r6.current =~= seq![sb, span_of(b, plain())]);
    let r7 = run_events(e7);
    assert(r7.lines =~~= seq![seq![sa, span_of(a, plain())], seq![sb, span_of(b, plain())]]);
    let r8 = run_events(e8);
    assert(r8.lists =~= seq![ListKind::Unordered]);
    assert(r8.lines =~~= r7.lines);
    let r9 = run_events(e9);
    assert(r9.lines =~~= r7.lines.push(Seq::<SpanView>::empty()));
    let r10 = run_events(evs);
    assert(r10.current.len() == 0);
    assert(render_events(evs) =~~= seq![
        seq![sa, span_of(a, plain())],
        seq![sb, span_of(b, plain())],
        Seq::<SpanView>::empty(),
        Seq::<SpanView>::empty(),
    ]);
}

} // verus!
