//! HTML-to-Markdown conversion and Markdown-to-styled-text rendering.
//!
//! ```text
//! raw HTML  ──(htmd)──►  Markdown  ──(pulldown-cmark events)──►  styled Text
//! ```
//!
//! `html_to_markdown` runs once per article when a feed is fetched;
//! `render_markdown` runs when the preview pane is drawn.  The Markdown
//! parser hands back a stream of events; `render_events` is the state machine
//! that turns that stream into lines of styled spans.

use vstd::prelude::*;
use vstd::string::StringExecFns;

use crate::style::{lines_view, plain, span_of, spans_view, with_fg, with_modifier, Color, Line, Modifier, Span, SpanView, Style, Text};
use crate::text::{decimal, string_from_chars, push_decimal, push_repeated, repeat};

verus! {

// ── Outside parsers ────────────────────────────────────────────────────────

#[verifier::external_type_specification]
#[verifier::external_body]
pub struct ExMarkdownEvent<'a>(pulldown_cmark::Event<'a>);

#[verifier::external_type_specification]
#[verifier::external_body]
pub struct ExMarkdownTag<'a>(pulldown_cmark::Tag<'a>);

/// The Markdown that `htmd::convert` produces for an HTML document, or `None`
/// where it reports an error.
pub uninterp spec fn htmd_markdown(html: Seq<char>) -> Option<Seq<char>>;

/// A space, tab, line feed, carriage return or form feed: the characters HTML
/// allows between an attribute's name and its `=`.
pub open spec fn html_space(c: char) -> bool {
    c == ' ' || c == '\t' || c == '\n' || c == '\r' || c == '\x0C'
}

/// The word `start`, in any mix of ASCII letter case, begins at `i`.
pub open spec fn start_word_at(h: Seq<char>, i: int) -> bool {
    &&& 0 <= i && i + 5 <= h.len()
    &&& (h[i] == 's' || h[i] == 'S')
    &&& (h[i + 1] == 't' || h[i + 1] == 'T')
    &&& (h[i + 2] == 'a' || h[i + 2] == 'A')
    &&& (h[i + 3] == 'r' || h[i + 3] == 'R')
    &&& (h[i + 4] == 't' || h[i + 4] == 'T')
}

/// The position of the last non-space character at or before `j` (-1 if
/// there is none).
pub open spec fn before_spaces(h: Seq<char>, j: int) -> int
    decreases j + 1,
{
    if j < 0 || j >= h.len() {
        j
    } else if html_space(h[j]) {
        before_spaces(h, j - 1)
    } else {
        j
    }
}

/// The attribute name ending before the `=` at `eq`, spaces skipped, ends in
/// `start` (any letter case): a name htmd may read a list's first number from.
pub open spec fn names_start(h: Seq<char>, eq: int) -> bool {
    start_word_at(h, before_spaces(h, eq - 1) - 4)
}

/// A start tag `<ol` (any letter case) begins at `i`: the name is followed
/// by a space, `/` or `>`.
pub open spec fn ol_tag_at(h: Seq<char>, i: int) -> bool {
    &&& 0 <= i && i + 4 <= h.len()
    &&& h[i] == '<'
    &&& (h[i + 1] == 'o' || h[i + 1] == 'O')
    &&& (h[i + 2] == 'l' || h[i + 2] == 'L')
    &&& (html_space(h[i + 3]) || h[i + 3] == '/' || h[i + 3] == '>')
}

/// Reading the attributes of a start tag from `j` on, as HTML tokenizes them
/// (`mode`: 0 between attributes, 1 after an `=`, 2 in a `"` value, 3 in a
/// `'` value, 4 in an unquoted value), no value of a `start` attribute
/// (`in_start`) holds an `&` or a run of ten digits; `run` counts the digits
/// just read in the current value.
pub open spec fn ol_attrs_calm(h: Seq<char>, j: int, mode: nat, in_start: bool, run: nat) -> bool
    decreases h.len() - j,
{
    if j < 0 || j >= h.len() {
        true
    } else {
        let c = h[j];
        let run2: nat = if '0' <= c && c <= '9' { run + 1 } else { 0 };
        let ok = !in_start || (c != '&' && run2 < 10);
        if mode == 0 {
            if c == '>' {
                true
            } else if c == '=' {
                ol_attrs_calm(h, j + 1, 1, names_start(h, j), 0)
            } else {
                ol_attrs_calm(h, j + 1, 0, false, 0)
            }
        } else if mode == 1 {
            if html_space(c) {
                ol_attrs_calm(h, j + 1, 1, in_start, 0)
            } else if c == '"' {
                ol_attrs_calm(h, j + 1, 2, in_start, 0)
            } else if c == '\'' {
                ol_attrs_calm(h, j + 1, 3, in_start, 0)
            } else if c == '>' {
                true
            } else {
                ok && ol_attrs_calm(h, j + 1, 4, in_start, run2)
            }
        } else if mode == 2 || mode == 3 {
            if (mode == 2 && c == '"') || (mode == 3 && c == '\'') {
                ol_attrs_calm(h, j + 1, 0, false, 0)
            } else {
                ok && ol_attrs_calm(h, j + 1, mode, in_start, run2)
            }
        } else {
            if html_space(c) {
                ol_attrs_calm(h, j + 1, 0, false, 0)
            } else if c == '>' {
                true
            } else {
                ok && ol_attrs_calm(h, j + 1, 4, in_start, run2)
            }
        }
    }
}

/// Input on which htmd is known to return.  htmd numbers the items of an
/// `<ol>` from its `start` attribute parsed as a `usize` and adds each item's
/// position, which overflows for a start near the top of the range.  So
/// every `start` value of every `<ol>` tag has no character reference (`&`)
/// and fewer than ten digits in a row: the start is below a billion, and the
/// item count is bounded by the text's length.
pub open spec fn htmd_input_ok(h: Seq<char>) -> bool {
    forall|i: int| #[trigger] ol_tag_at(h, i) ==> ol_attrs_calm(h, i + 3, 0, false, 0)
}

/// The event stream that pulldown-cmark (all extensions on) produces for a
/// Markdown document, each event reduced to the parts the renderer reads.
pub uninterp spec fn markdown_events(md: Seq<char>) -> Seq<MdEventView>;

/// Calls `htmd::convert`; claims only that the outcome is the one named by
/// `htmd_markdown` for this input (the conversion depends on its argument
/// alone).  Input on which htmd's list numbering can overflow is left out.
#[verifier::external_body]
fn htmd_convert(html: &str) -> (r: Option<String>)
    requires
        htmd_input_ok(html@),
    ensures
        match r {
            Some(m) => htmd_markdown(html@) == Some(m@),
            None => htmd_markdown(html@) is None,
        },
{
    htmd::convert(html).ok()
}

/// Runs pulldown-cmark's `Parser::new_ext` with `Options::all()` over `md` and
/// reduces each event with `md_event`; claims only that the result is the
/// stream named by `markdown_events` (parsing depends on the text alone).
#[verifier::external_body]
fn parse_markdown(md: &str) -> (events: Vec<MdEvent>)
    ensures
        events_view(events@) == markdown_events(md@),
{
    pulldown_cmark::Parser::new_ext(md, pulldown_cmark::Options::all()).map(md_event).collect()
}

/// Reduces one pulldown-cmark event to an [`MdEvent`], one arm per variant.
#[verifier::external_body]
fn md_event(e: pulldown_cmark::Event<'_>) -> MdEvent {
    match e {
        pulldown_cmark::Event::Start(t) => MdEvent::Start(md_tag(t)),
        pulldown_cmark::Event::End(t) => MdEvent::End(md_tag(t)),
        pulldown_cmark::Event::Text(s) => MdEvent::Text(s.into_string()),
        pulldown_cmark::Event::Code(s) => MdEvent::Code(s.into_string()),
        pulldown_cmark::Event::SoftBreak => MdEvent::SoftBreak,
        pulldown_cmark::Event::HardBreak => MdEvent::HardBreak,
        pulldown_cmark::Event::Rule => MdEvent::Rule,
        _ => MdEvent::Other,
    }
}

/// Reduces one pulldown-cmark tag to an [`MdTag`], one arm per variant.
#[verifier::external_body]
fn md_tag(t: pulldown_cmark::Tag<'_>) -> MdTag {
    match t {
        pulldown_cmark::Tag::Paragraph => MdTag::Paragraph,
        pulldown_cmark::Tag::Heading(level, _, _) => MdTag::Heading(level as u8),
        pulldown_cmark::Tag::BlockQuote => MdTag::BlockQuote,
        pulldown_cmark::Tag::CodeBlock(_) => MdTag::CodeBlock,
        pulldown_cmark::Tag::List(start) => MdTag::List(start),
        pulldown_cmark::Tag::Item => MdTag::Item,
        pulldown_cmark::Tag::Emphasis => MdTag::Emphasis,
        pulldown_cmark::Tag::Strong => MdTag::Strong,
        pulldown_cmark::Tag::Strikethrough => MdTag::Strikethrough,
        pulldown_cmark::Tag::Link(..) => MdTag::Link,
        pulldown_cmark::Tag::Image(..) => MdTag::Image,
        _ => MdTag::Other,
    }
}

// ── HTML to Markdown ───────────────────────────────────────────────────────

/// What `html_to_markdown` returns: htmd's Markdown, or the input unchanged
/// when htmd fails or the input is one htmd may not return on.
pub open spec fn html_to_markdown_spec(html: Seq<char>) -> Seq<char> {
    if !htmd_input_ok(html) {
        html
    } else {
        match htmd_markdown(html) {
            Some(m) => m,
            None => html,
        }
    }
}

fn html_space_char(c: char) -> (r: bool)
    ensures
        r == html_space(c),
{
    c == ' ' || c == '\t' || c == '\n' || c == '\r' || c == '\x0C'
}

fn start_word(h: &Vec<char>, i: usize) -> (r: bool)
    ensures
        r == start_word_at(h@, i as int),
{
    if i >= h.len() || h.len() - i < 5 {
        return false;
    }
    (h[i] == 's' || h[i] == 'S') && (h[i + 1] == 't' || h[i + 1] == 'T') && (h[i + 2] == 'a'
        || h[i + 2] == 'A') && (h[i + 3] == 'r' || h[i + 3] == 'R') && (h[i + 4] == 't' || h[i + 4]
        == 'T')
}

/// Decides `names_start` for the `=` at `eq`.
fn names_start_at(h: &Vec<char>, eq: usize) -> (r: bool)
    requires
        eq < h.len(),
    ensures
        r == names_start(h@, eq as int),
{
    let mut k: usize = eq;
    while k > 0 && html_space_char(h[k - 1])
        invariant
            k <= eq,
            eq < h.len(),
            before_spaces(h@, eq - 1) == before_spaces(h@, k - 1),
        decreases k,
    {
        k = k - 1;
    }
    if k < 5 {
        return false;
    }
    start_word(h, k - 5)
}

fn ol_tag(h: &Vec<char>, i: usize) -> (r: bool)
    ensures
        r == ol_tag_at(h@, i as int),
{
    if i >= h.len() || h.len() - i < 4 {
        return false;
    }
    h[i] == '<' && (h[i + 1] == 'o' || h[i + 1] == 'O') && (h[i + 2] == 'l' || h[i + 2] == 'L') && (
    html_space_char(h[i + 3]) || h[i + 3] == '/' || h[i + 3] == '>')
}

/// Decides `ol_attrs_calm(h, from, 0, false, 0)`.
fn ol_attrs_calm_from(h: &Vec<char>, from: usize) -> (r: bool)
    requires
        from <= h.len(),
    ensures
        r == ol_attrs_calm(h@, from as int, 0, false, 0),
{
    let mut j = from;
    let mut mode: u8 = 0;
    let mut in_start = false;
    let mut run: usize = 0;
    while j < h.len()
        invariant
            from <= j <= h.len(),
            mode <= 4,
            run <= j,
            ol_attrs_calm(h@, from as int, 0, false, 0) == ol_attrs_calm(h@, j as int, mode as nat, in_start, run as nat),
        decreases h.len() - j,
    {
        let c = h[j];
        let run2: usize = if '0' <= c && c <= '9' { run + 1 } else { 0 };
        let ok = !in_start || (c != '&' && run2 < 10);
        if mode == 0 {
            if c == '>' {
                return true;
            } else if c == '=' {
                in_start = names_start_at(h, j);
                mode = 1;
                run = 0;
            } else {
                in_start = false;
                run = 0;
            }
        } else if mode == 1 {
            if html_space_char(c) {
                run = 0;
            } else if c == '"' {
                mode = 2;
                run = 0;
            } else if c == '\'' {
                mode = 3;
                run = 0;
            } else if c == '>' {
                return true;
            } else {
                if !ok {
                    return false;
                }
                mode = 4;
                run = run2;
            }
        } else if mode == 2 || mode == 3 {
            if (mode == 2 && c == '"') || (mode == 3 && c == '\'') {
                mode = 0;
                in_start = false;
                run = 0;
            } else {
                if !ok {
                    return false;
                }
                run = run2;
            }
        } else {
            if html_space_char(c) {
                mode = 0;
                in_start = false;
                run = 0;
            } else if c == '>' {
                return true;
            } else {
                if !ok {
                    return false;
                }
                run = run2;
            }
        }
        j = j + 1;
    }
    true
}

/// Decides `htmd_input_ok`.
pub fn htmd_accepts(html: &str) -> (r: bool)
    ensures
        r == htmd_input_ok(html@),
{
    let h = crate::text::chars_of(html);
    let mut i: usize = 0;
    while i < h.len()
        invariant
            h@ == html@,
            i <= h.len(),
            forall|k: int| 0 <= k < i && #[trigger] ol_tag_at(h@, k) ==> ol_attrs_calm(h@, k + 3, 0, false, 0),
        decreases h.len() - i,
    {
        if ol_tag(&h, i) {
            if !ol_attrs_calm_from(&h, i + 3) {
                return false;
            }
        }
        i = i + 1;
    }
    proof {
        assert forall|k: int| #[trigger] ol_tag_at(h@, k) implies ol_attrs_calm(h@, k + 3, 0, false, 0) by {
            assert(k < i);
        }
    }
    true
}

/// Converts an HTML fragment or document to Markdown (best effort: returns
/// `html` unchanged if the converter fails, or if its list numbering could
/// overflow on this input).
pub fn html_to_markdown(html: &str) -> (r: String)
    ensures
        r@ == html_to_markdown_spec(html@),
{
    if !htmd_accepts(html) {
        return String::from_str(html);
    }
    match htmd_convert(html) {
        Some(m) => m,
        None => String::from_str(html),
    }
}

// ── Markdown events ────────────────────────────────────────────────────────

/// The block and inline constructs the renderer distinguishes.
#[derive(Clone, Copy, Debug, PartialEq, Eq, Structural)]
pub enum MdTag {
    Paragraph,
    /// Heading with its level, 1 to 6.
    Heading(u8),
    BlockQuote,
    CodeBlock,
    /// A list; `Some(start)` for an ordered list starting at `start`.
    List(Option<u64>),
    Item,
    Emphasis,
    Strong,
    Strikethrough,
    Link,
    Image,
    /// Anything else (tables, footnote definitions, ...).
    Other,
}

/// One Markdown parser event.
#[derive(Clone, Debug)]
pub enum MdEvent {
    Start(MdTag),
    End(MdTag),
    Text(String),
    Code(String),
    SoftBreak,
    HardBreak,
    Rule,
    /// Raw HTML, footnote references, task-list markers: ignored.
    Other,
}

/// The value of an [`MdEvent`].
pub enum MdEventView {
    Start(MdTag),
    End(MdTag),
    Text(Seq<char>),
    Code(Seq<char>),
    SoftBreak,
    HardBreak,
    Rule,
    Other,
}

impl View for MdEvent {
    type V = MdEventView;

    open spec fn view(&self) -> MdEventView {
        match self {
            MdEvent::Start(t) => MdEventView::Start(*t),
            MdEvent::End(t) => MdEventView::End(*t),
            MdEvent::Text(s) => MdEventView::Text(s@),
            MdEvent::Code(s) => MdEventView::Code(s@),
            MdEvent::SoftBreak => MdEventView::SoftBreak,
            MdEvent::HardBreak => MdEventView::HardBreak,
            MdEvent::Rule => MdEventView::Rule,
            MdEvent::Other => MdEventView::Other,
        }
    }
}

/// The values of a list of events.
pub open spec fn events_view(evs: Seq<MdEvent>) -> Seq<MdEventView> {
    evs.map_values(|e: MdEvent| e@)
}

// ── Line splitting (the semantics of `str::lines`) ─────────────────────────

/// `line` without one trailing carriage return.
pub open spec fn strip_cr(line: Seq<char>) -> Seq<char> {
    if line.len() > 0 && line.last() == '\r' { line.drop_last() } else { line }
}

/// Splits `s` at each `'\n'`: the finished lines (each without its `"\n"` or
/// `"\r\n"` terminator) and the unterminated remainder.
pub open spec fn split_lines_prefix(s: Seq<char>) -> (Seq<Seq<char>>, Seq<char>)
    decreases s.len(),
{
    if s.len() == 0 {
        (Seq::empty(), Seq::empty())
    } else {
        let (done, cur) = split_lines_prefix(s.drop_last());
        if s.last() == '\n' {
            (done.push(strip_cr(cur)), Seq::empty())
        } else {
            (done, cur.push(s.last()))
        }
    }
}

/// The lines of `s`: split at line feeds, terminators removed, and no empty
/// line after a final terminator.
pub open spec fn str_lines(s: Seq<char>) -> Seq<Seq<char>> {
    let (done, cur) = split_lines_prefix(s);
    if cur.len() > 0 { done.push(cur) } else { done }
}

/// Splits `s` into its lines, as `str::lines` does.
pub fn split_lines(s: &str) -> (r: Vec<String>)
    ensures
        r@.map_values(|l: String| l@) == str_lines(s@),
{
    let mut done: Vec<String> = Vec::new();
    let mut cur: Vec<char> = Vec::new();
    let ghost mut seen: Seq<char> = Seq::empty();
    for c in it: s.chars()
        invariant
            seen == s@.take(it.index() as int),
            it.seq() == s@,
            (done@.map_values(|l: String| l@), cur@) == split_lines_prefix(seen),
    {
        proof {
            assert(s@.take(it.index() + 1) =~= seen.push(c));
            assert(seen.push(c).drop_last() =~= seen);
        }
        if c == '\n' {
            let ghost prev = cur@;
            let len = cur.len();
            if len > 0 && cur[len - 1] == '\r' {
                cur.pop();
            }
            assert(cur@ =~= strip_cr(prev));
            let line = string_from_chars(&cur);
            done.push(line);
            cur = Vec::new();
        } else {
            cur.push(c);
        }
        proof {
            seen = seen.push(c);
            assert(done@.map_values(|l: String| l@) =~= split_lines_prefix(seen).0);
            assert(cur@ =~= split_lines_prefix(seen).1);
        }
    }
    proof {
        assert(s@.take(s@.len() as int) =~= s@);
    }
    if cur.len() > 0 {
        let line = string_from_chars(&cur);
        done.push(line);
    }
    assert(done@.map_values(|l: String| l@) =~= str_lines(s@));
    done
}

// ── Rendering state machine ────────────────────────────────────────────────

/// One level of list nesting: unordered, or ordered with the next number.
#[derive(Clone, Copy, Debug, PartialEq, Eq, Structural)]
pub enum ListKind {
    Unordered,
    Ordered(u64),
}

/// The renderer's state between events.
#[verifier::ext_equal]
pub struct RenderState {
    /// Finished lines.
    pub lines: Seq<Seq<SpanView>>,
    /// Spans of the line being built.
    pub current: Seq<SpanView>,
    /// Fully resolved style at each nesting depth.
    pub styles: Seq<Style>,
    pub in_code_block: bool,
    /// Inside an image: its alt text is suppressed.
    pub in_image: bool,
    pub lists: Seq<ListKind>,
}

/// The state before the first event.
pub open spec fn initial_state() -> RenderState {
    RenderState {
        lines: Seq::empty(),
        current: Seq::empty(),
        styles: seq![plain()],
        in_code_block: false,
        in_image: false,
        lists: Seq::empty(),
    }
}

/// The style on top of the stack, or the plain style if the stack is empty.
pub open spec fn top_style(styles: Seq<Style>) -> Style {
    if styles.len() > 0 { styles.last() } else { plain() }
}

/// The stack without its top entry (unchanged if empty).
pub open spec fn pop_style(styles: Seq<Style>) -> Seq<Style> {
    if styles.len() > 0 { styles.drop_last() } else { styles }
}

/// Moves the spans being built into a finished line.
pub open spec fn flush(st: RenderState) -> RenderState {
    RenderState { lines: st.lines.push(st.current), current: Seq::empty(), ..st }
}

/// Appends a finished line.
pub open spec fn add_line(st: RenderState, l: Seq<SpanView>) -> RenderState {
    RenderState { lines: st.lines.push(l), ..st }
}

/// Appends a span to the line being built.
pub open spec fn add_span(st: RenderState, sp: SpanView) -> RenderState {
    RenderState { current: st.current.push(sp), ..st }
}

/// Pushes a style onto the stack.
pub open spec fn push_style(st: RenderState, s: Style) -> RenderState {
    RenderState { styles: st.styles.push(s), ..st }
}

/// Pops the style stack.
pub open spec fn popped(st: RenderState) -> RenderState {
    RenderState { styles: pop_style(st.styles), ..st }
}

/// A dim horizontal rule of forty box-drawing characters.
pub open spec fn rule_line() -> Seq<SpanView> {
    seq![span_of(repeat("\u{2500}"@, 40), with_fg(plain(), Color::DarkGray))]
}

/// The style of a heading of the given level.
pub open spec fn heading_style_spec(level: u8) -> Style {
    let bold = with_modifier(plain(), Modifier::Bold);
    if level == 1 {
        with_fg(bold, Color::Cyan)
    } else if level == 2 {
        with_fg(bold, Color::Blue)
    } else if level == 3 {
        with_fg(bold, Color::Green)
    } else {
        bold
    }
}

/// The number after `n` (wrapping at the top of the range).
pub open spec fn next_number(n: u64) -> u64 {
    if n < u64::MAX { (n + 1) as u64 } else { 0 }
}

/// The marker that starts a list item: two spaces per extra nesting level,
/// then the item number and `". "` in an ordered list, or a bullet.
pub open spec fn bullet(lists: Seq<ListKind>) -> Seq<char> {
    let depth: nat = if lists.len() > 0 { (lists.len() - 1) as nat } else { 0 };
    let indent = repeat("  "@, depth);
    if lists.len() > 0 && lists.last() is Ordered {
        indent + decimal(lists.last()->Ordered_0 as nat) + ". "@
    } else {
        indent + "\u{2022} "@
    }
}

/// The list stack after an item has been numbered.
pub open spec fn count_item(lists: Seq<ListKind>) -> Seq<ListKind> {
    if lists.len() > 0 && lists.last() is Ordered {
        lists.update(lists.len() - 1, ListKind::Ordered(next_number(lists.last()->Ordered_0)))
    } else {
        lists
    }
}

/// Adds the lines of a code-block text (all but the first start a new line).
pub open spec fn code_pieces(st: RenderState, pieces: Seq<Seq<char>>, style: Style) -> RenderState
    decreases pieces.len(),
{
    if pieces.len() == 0 {
        st
    } else {
        let before = code_pieces(st, pieces.drop_last(), style);
        let ready = if pieces.len() > 1 { flush(before) } else { before };
        add_span(ready, span_of(pieces.last(), style))
    }
}

/// The state after a text event.
pub open spec fn text_step(st: RenderState, t: Seq<char>) -> RenderState {
    let style = top_style(st.styles);
    if st.in_image {
        st
    } else if st.in_code_block {
        let after = code_pieces(st, str_lines(t), style);
        if t.len() > 0 && t.last() == '\n' { flush(after) } else { after }
    } else {
        add_span(st, span_of(t, style))
    }
}

/// The state after an opening tag.  A list item starts a line of its own:
/// spans still open on the current line are finished first.
pub open spec fn start_step(st: RenderState, tag: MdTag) -> RenderState {
    match tag {
        MdTag::Heading(level) => push_style(flush(st), heading_style_spec(level)),
        MdTag::BlockQuote => add_span(
            push_style(st, with_modifier(with_fg(top_style(st.styles), Color::DarkGray), Modifier::Italic)),
            span_of("| "@, with_fg(plain(), Color::DarkGray)),
        ),
        MdTag::CodeBlock => push_style(
            add_line(flush(RenderState { in_code_block: true, ..st }), rule_line()),
            with_fg(plain(), Color::Green),
        ),
        MdTag::List(start) => RenderState {
            lists: st.lists.push(
                match start {
                    Some(n) => ListKind::Ordered(n),
                    None => ListKind::Unordered,
                },
            ),
            ..st
        },
        MdTag::Item => {
            let ready = if st.current.len() > 0 { flush(st) } else { st };
            add_span(
                RenderState { lists: count_item(st.lists), ..ready },
                span_of(bullet(st.lists), with_fg(plain(), Color::Yellow)),
            )
        },
        MdTag::Emphasis => push_style(st, with_modifier(top_style(st.styles), Modifier::Italic)),
        MdTag::Strong => push_style(st, with_modifier(top_style(st.styles), Modifier::Bold)),
        MdTag::Strikethrough => push_style(st, with_modifier(top_style(st.styles), Modifier::CrossedOut)),
        MdTag::Link => push_style(st, with_modifier(with_fg(top_style(st.styles), Color::Cyan), Modifier::Underlined)),
        MdTag::Image => add_span(
            RenderState { in_image: true, ..st },
            span_of("[image]"@, with_fg(plain(), Color::DarkGray)),
        ),
        _ => st,
    }
}

/// The state after a closing tag.
pub open spec fn end_step(st: RenderState, tag: MdTag) -> RenderState {
    match tag {
        MdTag::Heading(_) => add_line(flush(popped(st)), Seq::empty()),
        MdTag::Paragraph => add_line(flush(st), Seq::empty()),
        MdTag::BlockQuote => add_line(flush(popped(st)), Seq::empty()),
        MdTag::CodeBlock => add_line(
            add_line(flush(popped(RenderState { in_code_block: false, ..st })), rule_line()),
            Seq::empty(),
        ),
        MdTag::List(_) => {
            let lists = if st.lists.len() > 0 { st.lists.drop_last() } else { st.lists };
            let s2 = RenderState { lists, ..st };
            if lists.len() == 0 { add_line(s2, Seq::empty()) } else { s2 }
        },
        MdTag::Item => flush(st),
        MdTag::Emphasis | MdTag::Strong | MdTag::Strikethrough | MdTag::Link => popped(st),
        MdTag::Image => RenderState { in_image: false, ..st },
        _ => st,
    }
}

/// The state after one event.
pub open spec fn step(st: RenderState, ev: MdEventView) -> RenderState {
    match ev {
        MdEventView::Start(tag) => start_step(st, tag),
        MdEventView::End(tag) => end_step(st, tag),
        MdEventView::Text(t) => text_step(st, t),
        MdEventView::Code(t) => add_span(st, span_of(t, with_fg(plain(), Color::Green))),
        MdEventView::SoftBreak => add_span(st, span_of(" "@, plain())),
        MdEventView::HardBreak => flush(st),
        MdEventView::Rule => add_line(add_line(flush(st), rule_line()), Seq::empty()),
        MdEventView::Other => st,
    }
}

/// The state after a sequence of events.
pub open spec fn run_events(evs: Seq<MdEventView>) -> RenderState
    decreases evs.len(),
{
    if evs.len() == 0 {
        initial_state()
    } else {
        step(run_events(evs.drop_last()), evs.last())
    }
}

/// The lines rendered from an event stream: every finished line, then the
/// trailing spans if any are left unterminated.
pub open spec fn render_events(evs: Seq<MdEventView>) -> Seq<Seq<SpanView>> {
    let st = run_events(evs);
    if st.current.len() > 0 { st.lines.push(st.current) } else { st.lines }
}

// ── Executable renderer ────────────────────────────────────────────────────

struct Renderer {
    lines: Vec<Line>,
    current: Vec<Span>,
    styles: Vec<Style>,
    in_code_block: bool,
    in_image: bool,
    lists: Vec<ListKind>,
}

impl View for Renderer {
    type V = RenderState;

    closed spec fn view(&self) -> RenderState {
        RenderState {
            lines: lines_view(self.lines@),
            current: spans_view(self.current@),
            styles: self.styles@,
            in_code_block: self.in_code_block,
            in_image: self.in_image,
            lists: self.lists@,
        }
    }
}

/// A dim horizontal rule line.
fn hr_line() -> (l: Line)
    ensures
        l@ == rule_line(),
{
    let mut s = String::new();
    push_repeated(&mut s, "\u{2500}", 40);
    let mut spans: Vec<Span> = Vec::new();
    spans.push(Span::styled(s, Style::new().fg(Color::DarkGray)));
    let l = Line::from_spans(spans);
    assert(l@ =~= rule_line());
    l
}

/// The style of a heading of the given level.
fn heading_style(level: u8) -> (s: Style)
    ensures
        s == heading_style_spec(level),
{
    let bold = Style::new().add_modifier(Modifier::Bold);
    if level == 1 {
        bold.fg(Color::Cyan)
    } else if level == 2 {
        bold.fg(Color::Blue)
    } else if level == 3 {
        bold.fg(Color::Green)
    } else {
        bold
    }
}

impl Renderer {
    fn new() -> (r: Renderer)
        ensures
            r@ == initial_state(),
    {
        let mut styles: Vec<Style> = Vec::new();
        styles.push(Style::new());
        let r = Renderer {
            lines: Vec::new(),
            current: Vec::new(),
            styles,
            in_code_block: false,
            in_image: false,
            lists: Vec::new(),
        };
        assert(r@.lines =~= Seq::<Seq<SpanView>>::empty());
        assert(r@.current =~= Seq::<SpanView>::empty());
        assert(r@.styles =~= seq![plain()]);
        r
    }

    fn top(&self) -> (s: Style)
        ensures
            s == top_style(self@.styles),
    {
        let n = self.styles.len();
        if n > 0 {
            self.styles[n - 1]
        } else {
            Style::new()
        }
    }

    fn flush(&mut self)
        ensures
            final(self)@ == flush(old(self)@),
    {
        let mut spans: Vec<Span> = Vec::new();
        core::mem::swap(&mut spans, &mut self.current);
        self.lines.push(Line::from_spans(spans));
        assert(self@.lines =~= flush(old(self)@).lines);
        assert(self@.current =~= flush(old(self)@).current);
    }

    fn add_line(&mut self, l: Line)
        ensures
            final(self)@ == add_line(old(self)@, l@),
    {
        self.lines.push(l);
        assert(self@.lines =~= add_line(old(self)@, l@).lines);
    }

    fn add_span(&mut self, sp: Span)
        ensures
            final(self)@ == add_span(old(self)@, sp@),
    {
        self.current.push(sp);
        assert(self@.current =~= add_span(old(self)@, sp@).current);
    }

    fn push_style(&mut self, s: Style)
        ensures
            final(self)@ == push_style(old(self)@, s),
    {
        self.styles.push(s);
    }

    fn pop_style(&mut self)
        ensures
            final(self)@ == popped(old(self)@),
    {
        let _ = self.styles.pop();
    }

    fn text_in_code(&mut self, t: &String, style: Style)
        ensures
            final(self)@ == code_pieces(old(self)@, str_lines(t@), style),
    {
        let pieces = split_lines(t.as_str());
        let ghost pv = pieces@.map_values(|l: String| l@);
        let mut j: usize = 0;
        while j < pieces.len()
            invariant
                j <= pieces.len(),
                pv == pieces@.map_values(|l: String| l@),
                pv == str_lines(t@),
                self@ == code_pieces(old(self)@, pv.take(j as int), style),
            decreases pieces.len() - j,
        {
            proof {
                assert(pv.take(j + 1).drop_last() =~= pv.take(j as int));
                assert(pv.take(j + 1).last() == pv[j as int]);
            }
            if j > 0 {
                self.flush();
            }
            self.add_span(Span::styled(pieces[j].clone(), style));
            j = j + 1;
        }
        assert(pv.take(pieces.len() as int) =~= pv);
    }

    fn text(&mut self, t: &String)
        ensures
            final(self)@ == text_step(old(self)@, t@),
    {
        let style = self.top();
        if self.in_image {
        } else if self.in_code_block {
            self.text_in_code(t, style);
            if ends_with_newline(t.as_str()) {
                self.flush();
            }
        } else {
            self.add_span(Span::styled(t.clone(), style));
        }
    }

    fn start_item(&mut self)
        ensures
            final(self)@ == start_step(old(self)@, MdTag::Item),
    {
        if self.current.len() > 0 {
            self.flush();
        }
        let n = self.lists.len();
        let depth: usize = if n > 0 { n - 1 } else { 0 };
        let mut marker = String::new();
        push_repeated(&mut marker, "  ", depth);
        let ordered = n > 0 && match self.lists[n - 1] {
            ListKind::Ordered(_) => true,
            ListKind::Unordered => false,
        };
        if ordered {
            let k = match self.lists[n - 1] {
                ListKind::Ordered(k) => k,
                ListKind::Unordered => 0,
            };
            push_decimal(&mut marker, k);
            marker.append(". ");
            let next: u64 = if k < u64::MAX { k + 1 } else { 0 };
            self.lists.set(n - 1, ListKind::Ordered(next));
        } else {
            marker.append("\u{2022} ");
        }
        proof {
            assert(marker@ =~= bullet(old(self)@.lists));
            assert(self.lists@ =~= count_item(old(self)@.lists));
        }
        self.add_span(Span::styled(marker, Style::new().fg(Color::Yellow)));
    }

    fn start(&mut self, tag: MdTag)
        ensures
            final(self)@ == start_step(old(self)@, tag),
    {
        match tag {
            MdTag::Heading(level) => {
                self.flush();
                self.push_style(heading_style(level));
            },
            MdTag::BlockQuote => {
                let inherited = self.top();
                self.push_style(inherited.fg(Color::DarkGray).add_modifier(Modifier::Italic));
                self.add_span(Span::styled(String::from_str("| "), Style::new().fg(Color::DarkGray)));
            },
            MdTag::CodeBlock => {
                self.in_code_block = true;
                self.flush();
                self.add_line(hr_line());
                self.push_style(Style::new().fg(Color::Green));
            },
            MdTag::List(start) => {
                let kind = match start {
                    Some(k) => ListKind::Ordered(k),
                    None => ListKind::Unordered,
                };
                self.lists.push(kind);
            },
            MdTag::Item => self.start_item(),
            MdTag::Emphasis => {
                let s = self.top().add_modifier(Modifier::Italic);
                self.push_style(s);
            },
            MdTag::Strong => {
                let s = self.top().add_modifier(Modifier::Bold);
                self.push_style(s);
            },
            MdTag::Strikethrough => {
                let s = self.top().add_modifier(Modifier::CrossedOut);
                self.push_style(s);
            },
            MdTag::Link => {
                let s = self.top().fg(Color::Cyan).add_modifier(Modifier::Underlined);
                self.push_style(s);
            },
            MdTag::Image => {
                self.in_image = true;
                self.add_span(Span::styled(String::from_str("[image]"), Style::new().fg(Color::DarkGray)));
            },
            _ => {},
        }
    }

    fn end(&mut self, tag: MdTag)
        ensures
            final(self)@ == end_step(old(self)@, tag),
    {
        match tag {
            MdTag::Heading(_) => {
                self.pop_style();
                self.flush();
                self.add_line(Line::blank());
            },
            MdTag::Paragraph => {
                self.flush();
                self.add_line(Line::blank());
            },
            MdTag::BlockQuote => {
                self.pop_style();
                self.flush();
                self.add_line(Line::blank());
            },
            MdTag::CodeBlock => {
                self.in_code_block = false;
                self.pop_style();
                self.flush();
                self.add_line(hr_line());
                self.add_line(Line::blank());
            },
            MdTag::List(_) => {
                let _ = self.lists.pop();
                if self.lists.len() == 0 {
                    self.add_line(Line::blank());
                }
            },
            MdTag::Item => self.flush(),
            MdTag::Emphasis | MdTag::Strong | MdTag::Strikethrough | MdTag::Link => self.pop_style(),
            MdTag::Image => {
                self.in_image = false;
            },
            _ => {},
        }
    }

    fn step(&mut self, ev: &MdEvent)
        ensures
            final(self)@ == step(old(self)@, ev@),
    {
        match ev {
            MdEvent::Start(tag) => self.start(*tag),
            MdEvent::End(tag) => self.end(*tag),
            MdEvent::Text(t) => self.text(t),
            MdEvent::Code(t) => {
                self.add_span(Span::styled(t.clone(), Style::new().fg(Color::Green)));
            },
            MdEvent::SoftBreak => {
                self.add_span(Span::raw(String::from_str(" ")));
            },
            MdEvent::HardBreak => self.flush(),
            MdEvent::Rule => {
                self.flush();
                self.add_line(hr_line());
                self.add_line(Line::blank());
            },
            MdEvent::Other => {},
        }
    }

    fn finish(self) -> (t: Text)
        ensures
            t@ == (if self@.current.len() > 0 { self@.lines.push(self@.current) } else { self@.lines }),
    {
        let mut lines = self.lines;
        if self.current.len() > 0 {
            lines.push(Line::from_spans(self.current));
        }
        let t = Text { lines };
        assert(t@ =~= (if self@.current.len() > 0 { self@.lines.push(self@.current) } else { self@.lines }));
        t
    }
}

/// Whether `s` ends with a line feed.
fn ends_with_newline(s: &str) -> (b: bool)
    ensures
        b == (s@.len() > 0 && s@.last() == '\n'),
{
    let mut last_is_nl = false;
    for c in it: s.chars()
        invariant
            it.seq() == s@,
            last_is_nl == (it.index() > 0 && s@[it.index() - 1] == '\n'),
    {
        last_is_nl = c == '\n';
    }
    last_is_nl
}

/// Renders the lines for an event stream.
pub fn render_event_list(events: &Vec<MdEvent>) -> (t: Text)
    ensures
        t@ == render_events(events_view(events@)),
{
    let ghost evs = events_view(events@);
    let mut r = Renderer::new();
    let mut i: usize = 0;
    while i < events.len()
        invariant
            i <= events.len(),
            evs == events_view(events@),
            r@ == run_events(evs.take(i as int)),
        decreases events.len() - i,
    {
        proof {
            assert(evs.take(i + 1).drop_last() =~= evs.take(i as int));
            assert(evs.take(i + 1).last() == events@[i as int]@);
        }
        r.step(&events[i]);
        i = i + 1;
    }
    assert(evs.take(events.len() as int) =~= evs);
    r.finish()
}

/// Renders a Markdown string into styled lines: headings (levels 1 to 3 in
/// distinct colours, the rest bold), bold, italic, strikethrough, green inline
/// and block code framed by rules, bulleted and numbered lists, grey italic
/// block quotes with a `| ` gutter, cyan underlined links, an `[image]`
/// placeholder for images, and horizontal rules.
pub fn render_markdown(md: &str) -> (t: Text)
    ensures
        t@ == render_events(markdown_events(md@)),
{
    let events = parse_markdown(md);
    render_event_list(&events)
}

} // verus!
