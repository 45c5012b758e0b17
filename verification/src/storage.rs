//! Persistent records of feed subscriptions and read state.
//!
//! The records are written as pretty-printed JSON to
//! `$XDG_DATA_HOME/rsstui/feeds.json` (or `~/.local/share/rsstui/feeds.json`);
//! reading and writing the file belongs to the terminal front end.

use vstd::prelude::*;

verus! {

/// The set of strings held by a list (order and repetitions forgotten).
pub open spec fn str_set(v: Seq<String>) -> Set<Seq<char>> {
    Set::new(|x: Seq<char>| exists|i: int| 0 <= i < v.len() && #[trigger] v[i]@ == x)
}

/// Persisted record for a single feed subscription.
#[derive(Clone, Debug)]
pub struct FeedConfig {
    /// The subscribed feed URL.
    pub url: String,
    /// Article IDs that the user has marked as read.
    pub read_ids: Vec<String>,
}

/// The value of a [`FeedConfig`]: its URL and the set of read article IDs.
#[verifier::ext_equal]
pub struct FeedConfigView {
    pub url: Seq<char>,
    pub read_ids: Set<Seq<char>>,
}

impl View for FeedConfig {
    type V = FeedConfigView;

    open spec fn view(&self) -> FeedConfigView {
        FeedConfigView { url: self.url@, read_ids: str_set(self.read_ids@) }
    }
}

impl Default for FeedConfig {
    fn default() -> (r: FeedConfig)
        ensures
            r@.url == Seq::<char>::empty(),
            r@.read_ids == Set::<Seq<char>>::empty(),
    {
        let r = FeedConfig { url: String::new(), read_ids: Vec::new() };
        assert(r@.read_ids =~= Set::<Seq<char>>::empty());
        r
    }
}

/// Top-level structure of the stored file: the subscriptions in order.
#[derive(Clone, Debug)]
pub struct StorageConfig {
    pub feeds: Vec<FeedConfig>,
}

/// The values of a list of feed records.
pub open spec fn configs_view(v: Seq<FeedConfig>) -> Seq<FeedConfigView> {
    v.map_values(|c: FeedConfig| c@)
}

impl View for StorageConfig {
    type V = Seq<FeedConfigView>;

    open spec fn view(&self) -> Seq<FeedConfigView> {
        configs_view(self.feeds@)
    }
}

impl Default for StorageConfig {
    /// The configuration of a first run: no subscriptions.
    fn default() -> (r: StorageConfig)
        ensures
            r@ == Seq::<FeedConfigView>::empty(),
    {
        let r = StorageConfig { feeds: Vec::new() };
        assert(r@ =~= Seq::<FeedConfigView>::empty());
        r
    }
}

/// Whether `s` occurs in `v`.
pub fn contains_str(v: &Vec<String>, s: &String) -> (b: bool)
    ensures
        b == str_set(v@).contains(s@),
{
    let mut i: usize = 0;
    while i < v.len()
        invariant
            i <= v.len(),
            forall|j: int| 0 <= j < i ==> v@[j]@ != s@,
        decreases v.len() - i,
    {
        if v[i] == *s {
            assert(str_set(v@).contains(s@)) by { assert(v@[i as int]@ == s@); }
            return true;
        }
        i = i + 1;
    }
    false
}

/// A copy of a list of strings.
pub fn clone_strs(v: &Vec<String>) -> (r: Vec<String>)
    ensures
        r@.map_values(|s: String| s@) == v@.map_values(|s: String| s@),
        str_set(r@) == str_set(v@),
{
    let mut r: Vec<String> = Vec::new();
    let mut i: usize = 0;
    while i < v.len()
        invariant
            i <= v.len(),
            r@.map_values(|s: String| s@) == v@.take(i as int).map_values(|s: String| s@),
        decreases v.len() - i,
    {
        r.push(v[i].clone());
        assert(v@.take(i + 1).map_values(|s: String| s@) =~= v@.take(i as int).map_values(|s: String| s@).push(v@[i as int]@));
        assert(r@.map_values(|s: String| s@) =~= v@.take(i as int).map_values(|s: String| s@).push(v@[i as int]@));
        i = i + 1;
    }
    assert(v@.take(v.len() as int) =~= v@);
    assert forall|x: Seq<char>| str_set(r@).contains(x) <==> str_set(v@).contains(x) by {
        if str_set(r@).contains(x) {
            let j = choose|j: int| 0 <= j < r@.len() && #[trigger] r@[j]@ == x;
            assert(r@.map_values(|s: String| s@)[j] == v@.map_values(|s: String| s@)[j]);
        }
        if str_set(v@).contains(x) {
            let j = choose|j: int| 0 <= j < v@.len() && #[trigger] v@[j]@ == x;
            assert(r@.map_values(|s: String| s@)[j] == v@.map_values(|s: String| s@)[j]);
        }
    }
    assert(str_set(r@) =~= str_set(v@));
    r
}

/// Adds `s` to the set of strings held by `v` (appending it if absent).
pub fn insert_str(v: &mut Vec<String>, s: String)
    ensures
        str_set(final(v)@) == str_set(old(v)@).insert(s@),
{
    if !contains_str(v, &s) {
        let ghost sv = s@;
        v.push(s);
        assert forall|x: Seq<char>| str_set(v@).contains(x) <==> str_set(old(v)@).insert(sv).contains(x) by {
            if str_set(v@).contains(x) {
                let j = choose|j: int| 0 <= j < v@.len() && #[trigger] v@[j]@ == x;
                if j < old(v)@.len() {
                    assert(old(v)@[j] == v@[j]);
                }
            }
            if str_set(old(v)@).contains(x) {
                let j = choose|j: int| 0 <= j < old(v)@.len() && #[trigger] old(v)@[j]@ == x;
                assert(v@[j] == old(v)@[j]);
            }
            if x == sv {
                assert(v@[v@.len() - 1]@ == sv);
            }
        }
        assert(str_set(v@) =~= str_set(old(v)@).insert(sv));
    } else {
        assert(str_set(v@) =~= str_set(old(v)@).insert(s@));
    }
}

/// Removes every occurrence of `s` from `v`.
pub fn remove_str(v: &mut Vec<String>, s: &String)
    ensures
        str_set(final(v)@) == str_set(old(v)@).remove(s@),
{
    let mut kept: Vec<String> = Vec::new();
    let mut rest: Vec<String> = Vec::new();
    core::mem::swap(&mut rest, v);
    let ghost orig = rest@;
    let n = rest.len();
    let mut i: usize = 0;
    while rest.len() > 0
        invariant
            orig == old(v)@,
            orig.len() == n,
            i + rest@.len() == orig.len(),
            rest@ == orig.skip(i as int),
            forall|x: Seq<char>| str_set(kept@).contains(x) <==> (x != s@ && str_set(orig.take(i as int)).contains(x)),
        decreases rest@.len(),
    {
        let item = rest.remove(0);
        let ghost iv = item@;
        proof {
            assert(orig[i as int] == item);
            assert(orig.skip(i + 1) =~= rest@);
        }
        let keep = !(item == *s);
        let ghost before = kept@;
        if keep {
            kept.push(item);
        }
        proof {
            assert forall|x: Seq<char>| str_set(kept@).contains(x) <==> (x != s@ && str_set(orig.take(i + 1)).contains(x)) by {
                if str_set(kept@).contains(x) {
                    let j = choose|j: int| 0 <= j < kept@.len() && #[trigger] kept@[j]@ == x;
                    if j < before.len() {
                        assert(before[j] == kept@[j]);
                        assert(str_set(before).contains(x));
                        let k = choose|k: int| 0 <= k < i && #[trigger] orig.take(i as int)[k]@ == x;
                        assert(orig.take(i + 1)[k] == orig.take(i as int)[k]);
                    } else {
                        assert(orig.take(i + 1)[i as int]@ == x);
                    }
                }
                if x != s@ && str_set(orig.take(i + 1)).contains(x) {
                    let k = choose|k: int| 0 <= k < i + 1 && #[trigger] orig.take(i + 1)[k]@ == x;
                    if k < i {
                        assert(orig.take(i as int)[k] == orig.take(i + 1)[k]);
                        assert(str_set(orig.take(i as int)).contains(x));
                        assert(str_set(before).contains(x));
                        let j = choose|j: int| 0 <= j < before.len() && #[trigger] before[j]@ == x;
                        assert(kept@[j] == before[j]);
                    } else {
                        assert(iv == x);
                        assert(kept@[kept@.len() - 1]@ == x);
                    }
                }
            }
        }
        i = i + 1;
    }
    proof {
        assert(orig.take(i as int) =~= orig);
        assert(str_set(kept@) =~= str_set(orig).remove(s@));
    }
    *v = kept;
}

/// Where the reader keeps its data directory (`rsstui/feeds.json` goes
/// under it): `$XDG_DATA_HOME` when set, else `.local/share` under `$HOME`,
/// else `.local/share` relative to the working directory.
#[derive(Clone, Debug)]
pub enum DataBase {
    Xdg(String),
    UnderHome(String),
    Relative,
}

/// The choice of [`DataBase`] from the two environment variables, each
/// `None` when unset (or not valid Unicode).
pub fn data_base(xdg_data_home: Option<String>, home: Option<String>) -> (r: DataBase)
    ensures
        match xdg_data_home {
            Some(x) => r matches DataBase::Xdg(d) && d@ == x@,
            None => match home {
                Some(h) => r matches DataBase::UnderHome(d) && d@ == h@,
                None => r is Relative,
            },
        },
{
    match xdg_data_home {
        Some(x) => DataBase::Xdg(x),
        None => match home {
            Some(h) => DataBase::UnderHome(h),
            None => DataBase::Relative,
        },
    }
}

} // verus!
