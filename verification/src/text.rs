//! Small string utilities used by the rendering and input-handling code.

use vstd::prelude::*;
use vstd::string::StringExecFns;

verus! {

/// Appends one character to a `String` (std's `String::push`).
#[verifier::external_body]
pub(crate) fn push_char(s: &mut String, c: char)
    ensures
        final(s)@ == old(s)@.push(c),
{
    s.push(c);
}

/// The decimal digits of `n`, most significant first, without leading zeros
/// (a lone `'0'` for zero).
pub open spec fn decimal(n: nat) -> Seq<char>
    decreases n,
{
    if n < 10 {
        seq![digit_char(n)]
    } else {
        decimal(n / 10).push(digit_char(n % 10))
    }
}

/// The ASCII digit for a value below ten.
pub open spec fn digit_char(d: nat) -> char {
    if d == 0 { '0' }
    else if d == 1 { '1' }
    else if d == 2 { '2' }
    else if d == 3 { '3' }
    else if d == 4 { '4' }
    else if d == 5 { '5' }
    else if d == 6 { '6' }
    else if d == 7 { '7' }
    else if d == 8 { '8' }
    else { '9' }
}

fn digit(d: u64) -> (c: char)
    requires
        d < 10,
    ensures
        c == digit_char(d as nat),
{
    if d == 0 { '0' }
    else if d == 1 { '1' }
    else if d == 2 { '2' }
    else if d == 3 { '3' }
    else if d == 4 { '4' }
    else if d == 5 { '5' }
    else if d == 6 { '6' }
    else if d == 7 { '7' }
    else if d == 8 { '8' }
    else { '9' }
}

/// Appends the decimal rendering of `n` to `out`.
pub fn push_decimal(out: &mut String, n: u64)
    ensures
        final(out)@ == old(out)@ + decimal(n as nat),
    decreases n,
{
    if n >= 10 {
        push_decimal(out, n / 10);
    }
    push_char(out, digit(n % 10));
}

/// `s` repeated `n` times.
pub open spec fn repeat(s: Seq<char>, n: nat) -> Seq<char>
    decreases n,
{
    if n == 0 { Seq::empty() } else { repeat(s, (n - 1) as nat) + s }
}

/// Appends `n` copies of `s` to `out`.
pub fn push_repeated(out: &mut String, s: &str, n: usize)
    ensures
        final(out)@ == old(out)@ + repeat(s@, n as nat),
{
    let mut i: usize = 0;
    while i < n
        invariant
            i <= n,
            out@ == old(out)@ + repeat(s@, i as nat),
        decreases n - i,
    {
        out.append(s);
        proof {
            assert(old(out)@ + repeat(s@, (i + 1) as nat) =~= old(out)@ + repeat(s@, i as nat) + s@);
        }
        i = i + 1;
    }
}

/// A `String` holding the given characters.
pub fn string_from_chars(cs: &Vec<char>) -> (s: String)
    ensures
        s@ == cs@,
{
    let mut s = String::new();
    let mut i: usize = 0;
    while i < cs.len()
        invariant
            i <= cs.len(),
            s@ == cs@.take(i as int),
        decreases cs.len() - i,
    {
        push_char(&mut s, cs[i]);
        assert(cs@.take(i as int).push(cs@[i as int]) =~= cs@.take(i + 1));
        i = i + 1;
    }
    assert(cs@.take(cs.len() as int) =~= cs@);
    s
}

/// The characters of `s`.
pub fn chars_of(s: &str) -> (cs: Vec<char>)
    ensures
        cs@ == s@,
{
    let mut cs: Vec<char> = Vec::new();
    for c in it: s.chars()
        invariant
            it.seq() == s@,
            cs@ == s@.take(it.index() as int),
    {
        cs.push(c);
        assert(s@.take(it.index() as int).push(c) =~= s@.take(it.index() + 1));
    }
    assert(s@.take(s@.len() as int) =~= s@);
    cs
}

/// Whether `c` has the Unicode `White_Space` property (what `char::is_whitespace`
/// tests).
pub open spec fn is_whitespace(c: char) -> bool {
    ||| '\u{9}' <= c <= '\u{d}'
    ||| c == ' '
    ||| c == '\u{85}'
    ||| c == '\u{a0}'
    ||| c == '\u{1680}'
    ||| '\u{2000}' <= c <= '\u{200a}'
    ||| c == '\u{2028}'
    ||| c == '\u{2029}'
    ||| c == '\u{202f}'
    ||| c == '\u{205f}'
    ||| c == '\u{3000}'
}

fn whitespace(c: char) -> (b: bool)
    ensures
        b == is_whitespace(c),
{
    ('\u{9}' <= c && c <= '\u{d}') || c == ' ' || c == '\u{85}' || c == '\u{a0}' || c == '\u{1680}'
        || ('\u{2000}' <= c && c <= '\u{200a}') || c == '\u{2028}' || c == '\u{2029}'
        || c == '\u{202f}' || c == '\u{205f}' || c == '\u{3000}'
}

/// `s` without leading whitespace.
pub open spec fn trim_start(s: Seq<char>) -> Seq<char>
    decreases s.len(),
{
    if s.len() > 0 && is_whitespace(s[0]) { trim_start(s.drop_first()) } else { s }
}

/// `s` without trailing whitespace.
pub open spec fn trim_end(s: Seq<char>) -> Seq<char>
    decreases s.len(),
{
    if s.len() > 0 && is_whitespace(s.last()) { trim_end(s.drop_last()) } else { s }
}

/// `s` without leading and trailing whitespace.
pub open spec fn trim(s: Seq<char>) -> Seq<char> {
    trim_end(trim_start(s))
}

/// `s` without leading and trailing whitespace (what `str::trim` returns).
pub fn trimmed(s: &str) -> (r: String)
    ensures
        r@ == trim(s@),
{
    let cs = chars_of(s);
    let n = cs.len();
    let mut lo: usize = 0;
    assert(cs@.skip(0) =~= cs@);
    while lo < n && whitespace(cs[lo])
        invariant
            lo <= n,
            n == cs@.len(),
            trim_start(cs@) == trim_start(cs@.skip(lo as int)),
        decreases n - lo,
    {
        assert(cs@.skip(lo as int).drop_first() =~= cs@.skip(lo + 1));
        lo = lo + 1;
    }
    assert(trim_start(cs@) == cs@.skip(lo as int));
    let mut hi: usize = n;
    while hi > lo && whitespace(cs[hi - 1])
        invariant
            lo <= hi <= n,
            n == cs@.len(),
            trim_end(cs@.skip(lo as int)) == trim_end(cs@.subrange(lo as int, hi as int)),
        decreases hi,
    {
        assert(cs@.subrange(lo as int, hi as int).drop_last() =~= cs@.subrange(lo as int, hi - 1));
        hi = hi - 1;
    }
    assert(cs@.skip(lo as int) =~= cs@.subrange(lo as int, n as int));
    let mut out: Vec<char> = Vec::new();
    let mut i: usize = lo;
    while i < hi
        invariant
            lo <= i <= hi <= n,
            n == cs@.len(),
            out@ == cs@.subrange(lo as int, i as int),
        decreases hi - i,
    {
        out.push(cs[i]);
        assert(cs@.subrange(lo as int, i as int).push(cs@[i as int]) =~= cs@.subrange(lo as int, i + 1));
        i = i + 1;
    }
    string_from_chars(&out)
}

/// The number of bytes of `c` in UTF-8 (what std's `char::len_utf8` gives).
pub open spec fn char_width(c: char) -> nat {
    if (c as u32) < 0x80 {
        1
    } else if (c as u32) < 0x800 {
        2
    } else if (c as u32) < 0x10000 {
        3
    } else {
        4
    }
}

/// The length of `s` in UTF-8 bytes.
pub open spec fn utf8_len(s: Seq<char>) -> nat
    decreases s.len(),
{
    if s.len() == 0 {
        0
    } else {
        utf8_len(s.drop_last()) + char_width(s.last())
    }
}

/// The byte offset at which character `k` of `s` starts (the end of `s` for
/// `k == s.len()`).
pub open spec fn byte_offset(s: Seq<char>, k: int) -> nat {
    utf8_len(s.take(k))
}

/// `off` is the byte offset of a character of `s` or of its end.
pub open spec fn on_boundary(s: Seq<char>, off: int) -> bool {
    exists|k: int| 0 <= k <= s.len() && #[trigger] byte_offset(s, k) == off
}

/// The character position at byte offset `off` of `s` (for `off` on a
/// boundary, see `lemma_char_index`).
pub open spec fn char_index(s: Seq<char>, off: int) -> int {
    choose|k: int| 0 <= k <= s.len() && #[trigger] byte_offset(s, k) == off
}

/// The offset moves by the width of each character.
pub proof fn lemma_offset_step(s: Seq<char>, k: int)
    requires
        0 <= k < s.len(),
    ensures
        byte_offset(s, k + 1) == byte_offset(s, k) + char_width(s[k]),
{
    assert(s.take(k + 1).drop_last() =~= s.take(k));
}

/// Offsets grow strictly with the character position.
pub proof fn lemma_offset_increases(s: Seq<char>, a: int, b: int)
    requires
        0 <= a < b <= s.len(),
    ensures
        byte_offset(s, a) < byte_offset(s, b),
    decreases b - a,
{
    lemma_offset_step(s, b - 1);
    if a < b - 1 {
        lemma_offset_increases(s, a, b - 1);
    }
}

/// On a boundary, `char_index` is the one position with that offset.
pub proof fn lemma_char_index(s: Seq<char>, off: int)
    requires
        on_boundary(s, off),
    ensures
        0 <= char_index(s, off) <= s.len(),
        byte_offset(s, char_index(s, off)) == off,
        forall|k: int| 0 <= k <= s.len() && #[trigger] byte_offset(s, k) == off ==> k == char_index(s, off),
{
    let c = char_index(s, off);
    assert forall|k: int| 0 <= k <= s.len() && #[trigger] byte_offset(s, k) == off implies k == c by {
        if k < c {
            lemma_offset_increases(s, k, c);
        } else if c < k {
            lemma_offset_increases(s, c, k);
        }
    }
}

/// Position `k` is on a boundary, with index `k`.
pub proof fn lemma_boundary_at(s: Seq<char>, k: int)
    requires
        0 <= k <= s.len(),
    ensures
        on_boundary(s, byte_offset(s, k) as int),
        char_index(s, byte_offset(s, k) as int) == k,
{
    lemma_char_index(s, byte_offset(s, k) as int);
}

/// The UTF-8 length of a concatenation.
pub proof fn lemma_utf8_len_concat(a: Seq<char>, b: Seq<char>)
    ensures
        utf8_len(a + b) == utf8_len(a) + utf8_len(b),
    decreases b.len(),
{
    if b.len() > 0 {
        assert((a + b).drop_last() =~= a + b.drop_last());
        lemma_utf8_len_concat(a, b.drop_last());
    } else {
        assert(a + b =~= a);
    }
}

/// Inserting `c` at `k` keeps the offsets before it and adds its width to
/// the length.
pub proof fn lemma_offset_insert(s: Seq<char>, k: int, c: char)
    requires
        0 <= k <= s.len(),
    ensures
        byte_offset(s.insert(k, c), k) == byte_offset(s, k),
        byte_offset(s.insert(k, c), k + 1) == byte_offset(s, k) + char_width(c),
        utf8_len(s.insert(k, c)) == utf8_len(s) + char_width(c),
{
    let t = s.insert(k, c);
    assert(t.take(k) =~= s.take(k));
    assert(t.take(k + 1) =~= s.take(k).push(c));
    assert(t.take(k + 1).drop_last() =~= s.take(k));
    assert(t =~= s.take(k) + seq![c] + s.skip(k));
    assert(s =~= s.take(k) + s.skip(k));
    lemma_utf8_len_concat(s.take(k) + seq![c], s.skip(k));
    lemma_utf8_len_concat(s.take(k), seq![c]);
    lemma_utf8_len_concat(s.take(k), s.skip(k));
    assert(seq![c].drop_last() =~= Seq::<char>::empty());
    assert(utf8_len(Seq::<char>::empty()) == 0);
    assert(seq![c].last() == c);
    assert(utf8_len(seq![c]) == char_width(c));
    assert(utf8_len(t) == utf8_len(s.take(k)) + char_width(c) + utf8_len(s.skip(k)));
}

/// Removing character `k` keeps the offsets up to it and takes its width
/// off the length.
pub proof fn lemma_offset_remove(s: Seq<char>, k: int)
    requires
        0 <= k < s.len(),
    ensures
        byte_offset(s.remove(k), k) == byte_offset(s, k),
        utf8_len(s.remove(k)) + char_width(s[k]) == utf8_len(s),
{
    let t = s.remove(k);
    assert(t.take(k) =~= s.take(k));
    assert(t =~= s.take(k) + s.skip(k + 1));
    assert(s =~= s.take(k + 1) + s.skip(k + 1));
    lemma_utf8_len_concat(s.take(k), s.skip(k + 1));
    lemma_utf8_len_concat(s.take(k + 1), s.skip(k + 1));
    lemma_offset_step(s, k);
}

/// The whole text ends at offset `utf8_len`.
pub proof fn lemma_offset_end(s: Seq<char>)
    ensures
        byte_offset(s, s.len() as int) == utf8_len(s),
{
    assert(s.take(s.len() as int) =~= s);
}

/// The UTF-8 width of a character.
pub fn char_width_of(c: char) -> (w: usize)
    ensures
        w == char_width(c),
{
    let v = c as u32;
    if v < 0x80 {
        1
    } else if v < 0x800 {
        2
    } else if v < 0x10000 {
        3
    } else {
        4
    }
}

/// The characters of `s` and the position of the character at byte offset
/// `off`.
pub fn chars_at(s: &String, off: usize) -> (r: (Vec<char>, usize))
    requires
        on_boundary(s@, off as int),
    ensures
        r.0@ == s@,
        r.1 == char_index(s@, off as int),
{
    proof { lemma_char_index(s@, off as int); }
    let ghost goal = char_index(s@, off as int);
    let cs = chars_of(s.as_str());
    let mut acc: usize = 0;
    let mut i: usize = 0;
    proof {
        assert(s@.take(0) =~= Seq::<char>::empty());
    }
    while acc < off
        invariant
            cs@ == s@,
            0 <= goal <= s@.len(),
            goal <= cs.len(),
            byte_offset(s@, goal) == off,
            i <= goal,
            acc == byte_offset(s@, i as int),
        decreases goal - i,
    {
        proof {
            assert(i < goal);
            lemma_offset_step(s@, i as int);
            if i + 1 < goal {
                lemma_offset_increases(s@, i + 1, goal);
            }
        }
        let w = char_width_of(cs[i]);
        assert(acc + w == byte_offset(s@, i + 1));
        assert(byte_offset(s@, i + 1) <= off);
        acc = acc + w;
        i = i + 1;
    }
    proof {
        if i < goal {
            lemma_offset_increases(s@, i as int, goal);
        }
    }
    (cs, i)
}

/// Inserts `c` at byte offset `idx` of `s` (std's `String::insert`), which
/// is the start of a character or the end of the text.
#[verifier::external_body]
pub(crate) fn string_insert(s: &mut String, idx: usize, c: char)
    requires
        on_boundary(old(s)@, idx as int),
        utf8_len(old(s)@) + 4 <= isize::MAX,
    ensures
        final(s)@ == old(s)@.insert(char_index(old(s)@, idx as int), c),
{
    s.insert(idx, c);
}

/// Removes the character that starts at byte offset `idx` of `s` (std's
/// `String::remove`) and returns it.
#[verifier::external_body]
pub(crate) fn string_remove(s: &mut String, idx: usize) -> (c: char)
    requires
        on_boundary(old(s)@, idx as int),
        char_index(old(s)@, idx as int) < old(s)@.len(),
    ensures
        c == old(s)@[char_index(old(s)@, idx as int)],
        final(s)@ == old(s)@.remove(char_index(old(s)@, idx as int)),
{
    s.remove(idx)
}

/// The byte length of a `String` (std's `String::len`): the UTF-8 length of
/// its characters.  std never lets a `String` hold more than `isize::MAX`
/// bytes.
#[verifier::external_body]
pub(crate) fn byte_len(s: &String) -> (n: usize)
    ensures
        n == utf8_len(s@),
        n <= isize::MAX,
{
    s.len()
}

} // verus!
