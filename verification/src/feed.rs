//! Feed data structures and the conversion from a parsed feed to articles.
//!
//! Downloading the feed is the front end's work; this module turns the
//! downloaded bytes into a [`FeedData`].  Parsing the RSS 0.9x/1.0/2.0,
//! Atom 0.3/1.0 or JSON Feed document is feed-rs's work.

use vstd::prelude::*;
use vstd::string::StringExecFns;

use crate::error::AppError;
use crate::markdown::{html_to_markdown, html_to_markdown_spec};

verus! {

/// A single article or entry fetched from a feed.
#[derive(Clone, Debug)]
pub struct Article {
    /// Unique identifier (`<id>` / `<guid>`), used to persist read state.
    pub id: String,
    /// Headline.
    pub title: String,
    /// Link to the full article on the web.
    pub link: Option<String>,
    /// Publication time in seconds since the Unix epoch (UTC), when given.
    pub published: Option<i64>,
    /// Summary or body, as Markdown.
    pub summary: String,
    /// Whether the user has marked this article as read.
    pub read: bool,
}

/// The value of an [`Article`].
#[verifier::ext_equal]
pub struct ArticleView {
    pub id: Seq<char>,
    pub title: Seq<char>,
    pub link: Option<Seq<char>>,
    pub published: Option<i64>,
    pub summary: Seq<char>,
    pub read: bool,
}

/// The value of an optional string.
pub open spec fn opt_view(o: Option<String>) -> Option<Seq<char>> {
    match o {
        Some(s) => Some(s@),
        None => None,
    }
}

impl View for Article {
    type V = ArticleView;

    open spec fn view(&self) -> ArticleView {
        ArticleView {
            id: self.id@,
            title: self.title@,
            link: opt_view(self.link),
            published: self.published,
            summary: self.summary@,
            read: self.read,
        }
    }
}

/// The values of a list of articles.
pub open spec fn articles_view(v: Seq<Article>) -> Seq<ArticleView> {
    v.map_values(|a: Article| a@)
}

/// All data returned from a single successful feed fetch.
#[derive(Clone, Debug)]
pub struct FeedData {
    /// Display title of the feed (the URL when the feed has none).
    pub title: String,
    /// Articles in the order the feed lists them.
    pub articles: Vec<Article>,
}

/// The value of a [`FeedData`].
#[verifier::ext_equal]
pub struct FeedDataView {
    pub title: Seq<char>,
    pub articles: Seq<ArticleView>,
}

impl View for FeedData {
    type V = FeedDataView;

    open spec fn view(&self) -> FeedDataView {
        FeedDataView { title: self.title@, articles: articles_view(self.articles@) }
    }
}

/// One entry of a parsed feed: the fields the reader uses.
pub struct RawEntry {
    pub id: String,
    pub title: Option<String>,
    /// The entry's links, in document order.
    pub links: Vec<String>,
    pub summary: Option<String>,
    /// The body of the entry's content element, if any.
    pub content: Option<String>,
    /// Publication time in seconds since the Unix epoch.
    pub published: Option<i64>,
}

/// The value of a [`RawEntry`].
#[verifier::ext_equal]
pub struct RawEntryView {
    pub id: Seq<char>,
    pub title: Option<Seq<char>>,
    pub links: Seq<Seq<char>>,
    pub summary: Option<Seq<char>>,
    pub content: Option<Seq<char>>,
    pub published: Option<i64>,
}

impl View for RawEntry {
    type V = RawEntryView;

    open spec fn view(&self) -> RawEntryView {
        RawEntryView {
            id: self.id@,
            title: opt_view(self.title),
            links: self.links@.map_values(|l: String| l@),
            summary: opt_view(self.summary),
            content: opt_view(self.content),
            published: self.published,
        }
    }
}

/// A parsed feed: its title and its entries.
pub struct RawFeed {
    pub title: Option<String>,
    pub entries: Vec<RawEntry>,
}

/// The value of a [`RawFeed`].
#[verifier::ext_equal]
pub struct RawFeedView {
    pub title: Option<Seq<char>>,
    pub entries: Seq<RawEntryView>,
}

impl View for RawFeed {
    type V = RawFeedView;

    open spec fn view(&self) -> RawFeedView {
        RawFeedView { title: opt_view(self.title), entries: self.entries@.map_values(|e: RawEntry| e@) }
    }
}

/// What `feed_rs::parser::parse` makes of a document, reduced to the fields
/// kept in a [`RawFeed`]; `None` where it reports an error.  For an entry
/// with no links the id is one feed-rs may have generated at random, so that
/// id is not part of what the bytes determine (see `same_but_generated_ids`).
pub uninterp spec fn feed_rs_parse(bytes: Seq<u8>) -> Option<RawFeedView>;

/// `got` is `named` except for the ids of entries without links: with no id
/// in the document and no link to hash, feed-rs gives such an entry a random
/// UUID.
pub open spec fn same_but_generated_ids(got: RawFeedView, named: RawFeedView) -> bool {
    &&& got.title == named.title
    &&& got.entries.len() == named.entries.len()
    &&& forall|k: int| 0 <= k < got.entries.len() ==> #[trigger] got.entries[k] == (if named.entries[k].links.len() == 0 {
        RawEntryView { id: got.entries[k].id, ..named.entries[k] }
    } else {
        named.entries[k]
    })
}

/// Calls `feed_rs::parser::parse` on the downloaded bytes and keeps, for the
/// feed, its title text and, for each entry, its id, title text, link hrefs,
/// summary text, content body and publication time.  Claims that it fails
/// exactly where `feed_rs_parse` names no result, and that what it returns is
/// that result but for the randomly generated ids of entries without links
/// (the parser runs with its defaults: no base URI, so no other id is drawn
/// at random).  Input on which feed-rs's play-time reading can panic is left
/// out.
#[verifier::external_body]
fn parse_feed(bytes: &[u8]) -> (r: Result<RawFeed, feed_rs::parser::ParseFeedError>)
    requires
        feed_input_ok(bytes@),
    ensures
        r is Ok <==> feed_rs_parse(bytes@) is Some,
        r matches Ok(raw) ==> same_but_generated_ids(raw@, feed_rs_parse(bytes@)->0),
{
    let feed = feed_rs::parser::parse(bytes)?;
    let entries = feed.entries.into_iter().map(|e| RawEntry {
        id: e.id,
        title: e.title.map(|t| t.content),
        links: e.links.into_iter().map(|l| l.href).collect(),
        summary: e.summary.map(|s| s.content),
        content: e.content.and_then(|c| c.body),
        published: e.published.map(|d| d.timestamp()),
    }).collect();
    Ok(RawFeed { title: feed.title.map(|t| t.content), entries })
}

/// The article made from a feed entry: its title or `"(untitled)"`, its first
/// link, its summary (or else its content body) converted to Markdown, and
/// not yet read.
pub open spec fn article_from_entry(e: RawEntryView) -> ArticleView {
    ArticleView {
        id: e.id,
        title: match e.title {
            Some(t) => t,
            None => "(untitled)"@,
        },
        link: if e.links.len() > 0 { Some(e.links[0]) } else { None },
        published: e.published,
        summary: match e.summary {
            Some(s) => html_to_markdown_spec(s),
            None => match e.content {
                Some(c) => html_to_markdown_spec(c),
                None => Seq::empty(),
            },
        },
        read: false,
    }
}

/// The feed data made from a parsed feed fetched from `url`: the feed's title
/// (or the URL) and one article per entry, in order.
pub open spec fn feed_from_raw(url: Seq<char>, raw: RawFeedView) -> FeedDataView {
    FeedDataView {
        title: match raw.title {
            Some(t) => t,
            None => url,
        },
        articles: raw.entries.map_values(|e: RawEntryView| article_from_entry(e)),
    }
}

pub(crate) fn clone_opt(o: &Option<String>) -> (r: Option<String>)
    ensures
        opt_view(r) == opt_view(*o),
{
    match o {
        Some(s) => Some(s.clone()),
        None => None,
    }
}

/// The article for one parsed feed entry.
pub fn article_from_raw(e: &RawEntry) -> (a: Article)
    ensures
        a@ == article_from_entry(e@),
{
    let title = match &e.title {
        Some(t) => t.clone(),
        None => String::from_str("(untitled)"),
    };
    let link = if e.links.len() > 0 { Some(e.links[0].clone()) } else { None };
    let summary = match &e.summary {
        Some(s) => html_to_markdown(s.as_str()),
        None => match &e.content {
            Some(c) => html_to_markdown(c.as_str()),
            None => String::new(),
        },
    };
    Article { id: e.id.clone(), title, link, published: e.published, summary, read: false }
}

/// Builds the feed data for a parsed feed fetched from `url`.
pub fn feed_data_from_raw(url: &str, raw: &RawFeed) -> (d: FeedData)
    ensures
        d@ == feed_from_raw(url@, raw@),
{
    let title = match &raw.title {
        Some(t) => t.clone(),
        None => String::from_str(url),
    };
    let mut articles: Vec<Article> = Vec::new();
    let mut i: usize = 0;
    while i < raw.entries.len()
        invariant
            i <= raw.entries.len(),
            articles_view(articles@) == raw@.entries.take(i as int).map_values(|e: RawEntryView| article_from_entry(e)),
        decreases raw.entries.len() - i,
    {
        let a = article_from_raw(&raw.entries[i]);
        let ghost prev = articles@;
        articles.push(a);
        proof {
            assert(articles_view(articles@) =~= articles_view(prev).push(a@));
            assert(raw@.entries[i as int] == raw.entries@[i as int]@);
            assert(raw@.entries.take(i + 1) =~= raw@.entries.take(i as int).push(raw.entries@[i as int]@));
            assert(articles_view(articles@) =~= raw@.entries.take(i + 1).map_values(|e: RawEntryView| article_from_entry(e)));
        }
        i = i + 1;
    }
    assert(raw@.entries.take(raw.entries.len() as int) =~= raw@.entries);
    FeedData { title, articles }
}

// ── Input feed-rs is known to return on ────────────────────────────────────

/// The ASCII text `p` stands in `b` at position `i`.
pub open spec fn ascii_at(b: Seq<u8>, i: int, p: Seq<char>) -> bool {
    &&& 0 <= i && i + p.len() <= b.len()
    &&& forall|k: int| 0 <= k < p.len() ==> #[trigger] b[i + k] as u32 == p[k] as u32
}

/// Reading on from `j` after the name of an element whose play times
/// feed-rs reads, no byte that can reach a play time could make its reading
/// panic.  `mode` follows quick-xml: 0 inside the start tag outside quotes, 1
/// inside `"`, 2 inside `'` (the tag ends at a `>` outside quotes), 3 in the
/// text after it.  For `duration` (`text_value`) the play time is the element's
/// text, read up to the next tag; a comment, CDATA section or processing
/// instruction there, which the text may run past, is not accepted.  For
/// `thumbnail` and `text` the play times are attribute values, which quick-xml
/// cuts from anywhere in the tag, so every byte of the tag is checked.  A
/// checked byte is ASCII and not `&` (no character reference can make a
/// digit), and digits come in runs of at most fifteen (`run` counts them), so
/// hours times 3600 fits a `u64`.
pub open spec fn play_time_calm(b: Seq<u8>, j: int, mode: nat, run: nat, text_value: bool) -> bool
    decreases b.len() - j,
{
    if j < 0 || j >= b.len() {
        true
    } else {
        let c = b[j];
        let run2: nat = if 48 <= c && c <= 57 { run + 1 } else { 0 };
        let ok = c != 38 && c < 128 && run2 < 16;
        if mode == 3 {
            if c == 60 {
                j + 1 >= b.len() || (b[j + 1] != 33 && b[j + 1] != 63)
            } else {
                ok && play_time_calm(b, j + 1, 3, run2, text_value)
            }
        } else if !text_value && !ok {
            false
        } else if mode == 0 && c == 62 {
            if text_value { play_time_calm(b, j + 1, 3, 0, text_value) } else { true }
        } else {
            let m2: nat = if mode == 0 {
                if c == 34 { 1 } else if c == 39 { 2 } else { 0 }
            } else if (mode == 1 && c == 34) || (mode == 2 && c == 39) {
                0
            } else {
                mode
            };
            play_time_calm(b, j + 1, m2, if text_value { 0 } else { run2 }, text_value)
        }
    }
}

/// Input on which feed-rs is known to return.  feed-rs reads the iTunes
/// `duration` text and the Media RSS `thumbnail` `time` and `text`
/// `start`/`end` attributes as play times with an unchecked `u64` parse of
/// every Unicode decimal digit run, and multiplies hours by 3600; a non-ASCII
/// digit or a long run panics.  So: no NUL or escape byte (without them no
/// UTF-16 or ISO-2022 text can spell an element name other than in ASCII, and
/// ASCII bytes decode to themselves), and after every such element name
/// (preceded by `<` or a prefix's `:`) the bytes that can reach a play time
/// are calm (`play_time_calm`).
pub open spec fn feed_input_ok(b: Seq<u8>) -> bool {
    &&& !b.contains(0u8)
    &&& !b.contains(27u8)
    &&& forall|i: int| #![trigger ascii_at(b, i, "<duration"@)] #![trigger ascii_at(b, i, ":duration"@)]
        (ascii_at(b, i, "<duration"@) || ascii_at(b, i, ":duration"@)) ==> play_time_calm(b, i + 9, 0, 0, true)
    &&& forall|i: int| #![trigger ascii_at(b, i, "<thumbnail"@)] #![trigger ascii_at(b, i, ":thumbnail"@)]
        (ascii_at(b, i, "<thumbnail"@) || ascii_at(b, i, ":thumbnail"@)) ==> play_time_calm(b, i + 10, 0, 0, false)
    &&& forall|i: int| #![trigger ascii_at(b, i, "<text"@)] #![trigger ascii_at(b, i, ":text"@)]
        (ascii_at(b, i, "<text"@) || ascii_at(b, i, ":text"@)) ==> play_time_calm(b, i + 5, 0, 0, false)
}

fn ascii_at_exec(b: &[u8], i: usize, p: &Vec<char>) -> (r: bool)
    requires
        forall|k: int| 0 <= k < p@.len() ==> (#[trigger] p@[k] as u32) < 128,
    ensures
        r == ascii_at(b@, i as int, p@),
{
    if i > b.len() || b.len() - i < p.len() {
        return false;
    }
    let mut k: usize = 0;
    while k < p.len()
        invariant
            i + p.len() <= b.len(),
            k <= p.len(),
            forall|m: int| 0 <= m < k ==> #[trigger] b@[i + m] as u32 == p@[m] as u32,
        decreases p.len() - k,
    {
        if b[i + k] as u32 != p[k] as u32 {
            return false;
        }
        k = k + 1;
    }
    true
}

fn has_byte(b: &[u8], x: u8) -> (r: bool)
    ensures
        r == b@.contains(x),
{
    let mut i: usize = 0;
    while i < b.len()
        invariant
            i <= b.len(),
            forall|k: int| 0 <= k < i ==> b@[k] != x,
        decreases b.len() - i,
    {
        if b[i] == x {
            return true;
        }
        i = i + 1;
    }
    false
}

/// Decides `play_time_calm(b, from, 0, 0, text_value)`.
fn play_time_calm_from(b: &[u8], from: usize, text_value: bool) -> (r: bool)
    ensures
        r == play_time_calm(b@, from as int, 0, 0, text_value),
{
    let mut j = from;
    let mut mode: u8 = 0;
    let mut run: usize = 0;
    while j < b.len()
        invariant
            from <= j,
            mode <= 3,
            run < 16,
            play_time_calm(b@, from as int, 0, 0, text_value) == play_time_calm(b@, j as int, mode as nat, run as nat, text_value),
        decreases b.len() - j,
    {
        let c = b[j];
        let run2: usize = if 48 <= c && c <= 57 { run + 1 } else { 0 };
        let ok = c != 38 && c < 128 && run2 < 16;
        if mode == 3 {
            if c == 60 {
                return j + 1 >= b.len() || (b[j + 1] != 33 && b[j + 1] != 63);
            }
            if !ok {
                return false;
            }
            run = run2;
        } else if !text_value && !ok {
            return false;
        } else if mode == 0 && c == 62 {
            if !text_value {
                return true;
            }
            mode = 3;
            run = 0;
        } else {
            mode = if mode == 0 {
                if c == 34 { 1 } else if c == 39 { 2 } else { 0 }
            } else if (mode == 1 && c == 34) || (mode == 2 && c == 39) {
                0
            } else {
                mode
            };
            run = if text_value { 0 } else { run2 };
        }
        j = j + 1;
    }
    true
}

/// The message of the error for a document refused before parsing.
pub open spec fn refused_feed_message() -> Seq<char> {
    "feed refused: a play time in it cannot be read safely"@
}

/// Decides `feed_input_ok`.
pub fn feed_accepts(b: &[u8]) -> (r: bool)
    ensures
        r == feed_input_ok(b@),
{
    if has_byte(b, 0) || has_byte(b, 27) {
        return false;
    }
    let d1 = crate::text::chars_of("<duration");
    let d2 = crate::text::chars_of(":duration");
    let t1 = crate::text::chars_of("<thumbnail");
    let t2 = crate::text::chars_of(":thumbnail");
    let x1 = crate::text::chars_of("<text");
    let x2 = crate::text::chars_of(":text");
    proof {
        reveal_strlit("<duration");
        reveal_strlit(":duration");
        reveal_strlit("<thumbnail");
        reveal_strlit(":thumbnail");
        reveal_strlit("<text");
        reveal_strlit(":text");
    }
    let mut i: usize = 0;
    while i < b.len()
        invariant
            d1@ == "<duration"@, d2@ == ":duration"@, t1@ == "<thumbnail"@,
            t2@ == ":thumbnail"@, x1@ == "<text"@, x2@ == ":text"@,
            d1@.len() == 9, d2@.len() == 9, t1@.len() == 10, t2@.len() == 10,
            x1@.len() == 5, x2@.len() == 5,
            forall|k: int| 0 <= k < 9 ==> (#[trigger] d1@[k] as u32) < 128,
            forall|k: int| 0 <= k < 9 ==> (#[trigger] d2@[k] as u32) < 128,
            forall|k: int| 0 <= k < 10 ==> (#[trigger] t1@[k] as u32) < 128,
            forall|k: int| 0 <= k < 10 ==> (#[trigger] t2@[k] as u32) < 128,
            forall|k: int| 0 <= k < 5 ==> (#[trigger] x1@[k] as u32) < 128,
            forall|k: int| 0 <= k < 5 ==> (#[trigger] x2@[k] as u32) < 128,
            i <= b.len(),
            forall|k: int| 0 <= k < i ==> ((ascii_at(b@, k, "<duration"@) || ascii_at(b@, k, ":duration"@))
                ==> play_time_calm(b@, k + 9, 0, 0, true)),
            forall|k: int| 0 <= k < i ==> ((ascii_at(b@, k, "<thumbnail"@) || ascii_at(b@, k, ":thumbnail"@))
                ==> play_time_calm(b@, k + 10, 0, 0, false)),
            forall|k: int| 0 <= k < i ==> ((ascii_at(b@, k, "<text"@) || ascii_at(b@, k, ":text"@))
                ==> play_time_calm(b@, k + 5, 0, 0, false)),
        decreases b.len() - i,
    {
        if ascii_at_exec(b, i, &d1) || ascii_at_exec(b, i, &d2) {
            if !play_time_calm_from(b, i + 9, true) {
                return false;
            }
        }
        if ascii_at_exec(b, i, &t1) || ascii_at_exec(b, i, &t2) {
            if !play_time_calm_from(b, i + 10, false) {
                return false;
            }
        }
        if ascii_at_exec(b, i, &x1) || ascii_at_exec(b, i, &x2) {
            if !play_time_calm_from(b, i + 5, false) {
                return false;
            }
        }
        i = i + 1;
    }
    true
}

/// Parses a downloaded feed document fetched from `url` into feed data.
///
/// The data is what [`feed_data_from_raw`] makes of feed-rs's parse of the
/// bytes (entry ids generated at random aside).  A document feed-rs does not
/// parse gives `AppError::Parse` with its message, and so does one whose play
/// times feed-rs could not read without panicking (`feed_input_ok`), which is
/// refused before parsing.
pub fn parse_feed_data(url: &str, bytes: &[u8]) -> (r: Result<FeedData, AppError>)
    ensures
        r is Ok <==> feed_input_ok(bytes@) && feed_rs_parse(bytes@) is Some,
        r matches Ok(d) ==> exists|raw: RawFeedView|
            same_but_generated_ids(raw, feed_rs_parse(bytes@)->0) && #[trigger] feed_from_raw(url@, raw) == d@,
        r matches Err(e) ==> e is Parse,
        !feed_input_ok(bytes@) ==> (r matches Err(AppError::Parse(m)) && m@ == refused_feed_message()),
{
    if !feed_accepts(bytes) {
        return Err(AppError::Parse(String::from_str("feed refused: a play time in it cannot be read safely")));
    }
    match parse_feed(bytes) {
        Ok(raw) => {
            let d = feed_data_from_raw(url, &raw);
            assert(d@ == feed_from_raw(url@, raw@));
            Ok(d)
        },
        Err(e) => Err(AppError::from_parse_error(e)),
    }
}

} // verus!
