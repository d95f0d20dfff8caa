//! Watcher-side state: the per-domain snapshots that incoming change
//! notifications are diffed against, and the last-value cache that the
//! verbose watcher uses to filter rewrites with identical content.
//!
//! The watch mechanism itself (callbacks, channels, reads from the
//! configuration store) lives in the surrounding program; it hands this
//! module the key that changed and the freshly read value, and takes back
//! the events to dispatch or the outcome to log.

use vstd::prelude::*;

use crate::diff::spec_from_mouse;
use crate::diff::spec_from_touchpad;
use crate::event::Event;
use crate::model::InputConfig;
use crate::strutil::str_eq;

verus! {

/// The last successfully read snapshot of each input domain; `None`
/// before the first successful read. Replaced wholesale on each
/// successful read, never partially mutated.
pub struct InputState {
    pub touchpad: Option<InputConfig>,
    pub mouse: Option<InputConfig>,
}

impl InputState {
    /// Start from the snapshots read at watcher setup.
    pub fn new(touchpad: Option<InputConfig>, mouse: Option<InputConfig>) -> (r: Self)
        ensures
            r.touchpad == touchpad,
            r.mouse == mouse,
    {
        InputState { touchpad, mouse }
    }

    /// Fold one change notification into the state: `fetched` is the
    /// freshly read value of `key`, or `None` when the read failed. The
    /// events are the diff of the stored snapshot against the new one;
    /// before a first successful read there is nothing to diff against
    /// and no event is produced. Unknown keys and failed reads change
    /// nothing.
    pub fn from(&mut self, key: &str, fetched: Option<InputConfig>) -> (events: Vec<Event>)
        ensures
            fetched matches Some(n) ==> (key@ == "input_touchpad"@ ==> {
                &&& final(self).touchpad == Some(n)
                &&& final(self).mouse == old(self).mouse
                &&& (old(self).touchpad matches Some(o) ==> events@ == spec_from_touchpad(o, n))
                &&& (old(self).touchpad is None ==> events@ == Seq::<Event>::empty())
            }),
            fetched matches Some(n) ==> (key@ == "input_default"@ ==> {
                &&& final(self).mouse == Some(n)
                &&& final(self).touchpad == old(self).touchpad
                &&& (old(self).mouse matches Some(o) ==> events@ == spec_from_mouse(o, n))
                &&& (old(self).mouse is None ==> events@ == Seq::<Event>::empty())
            }),
            fetched is None ==> *final(self) == *old(self) && events@ == Seq::<Event>::empty(),
            !(key@ == "input_touchpad"@ || key@ == "input_default"@) ==> *final(self) == *old(self)
                && events@ == Seq::<Event>::empty(),
    {
        proof {
            reveal_strlit("input_touchpad");
            reveal_strlit("input_default");
            assert("input_touchpad"@.len() == 14);
            assert("input_default"@.len() == 13);
            assert("input_touchpad"@ != "input_default"@);
        }
        let mut events: Vec<Event> = Vec::new();
        if let Some(new_config) = fetched {
            if str_eq(key, "input_touchpad") {
                if let Some(old_config) = &self.touchpad {
                    events = old_config.from_touchpad(&new_config);
                }
                self.touchpad = Some(new_config);
            } else if str_eq(key, "input_default") {
                if let Some(old_config) = &self.mouse {
                    events = old_config.from_mouse(&new_config);
                }
                self.mouse = Some(new_config);
            }
        }
        events
    }
}

/// One remembered value of a watched namespace and key.
pub struct WatchEntry {
    pub namespace: String,
    pub key: String,
    pub value: String,
}

/// What one change notification turned out to be, once the fresh value is
/// held against the remembered one.
#[derive(Clone, Debug, PartialEq)]
pub enum ChangeKind {
    /// First sighting of this key: remembered, reported as set.
    First,
    /// A rewrite with identical content: remembered value kept, nothing
    /// to report.
    Unchanged,
    /// An actual change: the remembered value is replaced and handed
    /// back, so old and new can be reported together.
    Changed(String),
}

/// The remembered value of `(ns, k)` among the entries, first match wins.
pub open spec fn spec_lookup(s: Seq<WatchEntry>, ns: Seq<char>, k: Seq<char>) -> Option<Seq<char>>
    decreases s.len(),
{
    if s.len() == 0 {
        Option::None
    } else if s[0].namespace@ == ns && s[0].key@ == k {
        Option::Some(s[0].value@)
    } else {
        spec_lookup(s.drop_first(), ns, k)
    }
}

/// The last seen value of every watched key, used to tell rewrites with
/// identical content from actual changes. Keys are unique: one entry per
/// (namespace, key) pair.
pub struct DebugCache {
    pub entries: Vec<WatchEntry>,
}

impl DebugCache {
    /// An empty cache.
    pub fn new() -> (r: Self)
        ensures
            r.entries@ == Seq::<WatchEntry>::empty(),
    {
        DebugCache { entries: Vec::new() }
    }

    /// Fold one freshly read value into the cache and say what it was:
    /// a first sighting, a rewrite with identical content, or an actual
    /// change. Afterwards the cache remembers the fresh value for this
    /// key, and no other key's memory is touched.
    pub fn record(&mut self, namespace: &str, key: &str, value: String) -> (r: ChangeKind)
        ensures
            (r is First <==> spec_lookup(old(self).entries@, namespace@, key@) is None),
            (r is Unchanged <==> spec_lookup(old(self).entries@, namespace@, key@) == Option::Some(
                value@,
            )),
            (r is Changed <==> (spec_lookup(old(self).entries@, namespace@, key@) matches Some(v)
                && v != value@)),
            r matches ChangeKind::Changed(o) ==> spec_lookup(old(self).entries@, namespace@, key@)
                == Option::Some(o@),
            spec_lookup(final(self).entries@, namespace@, key@) == Option::Some(value@),
            forall|ns2: Seq<char>, k2: Seq<char>|
                !(ns2 == namespace@ && k2 == key@) ==> spec_lookup(final(self).entries@, ns2, k2)
                    == spec_lookup(old(self).entries@, ns2, k2),
    {
        let n = self.entries.len();
        let mut i: usize = 0;
        while i < n
            invariant
                i <= n,
                n == self.entries@.len(),
                *self == *old(self),
                forall|j: int|
                    0 <= j < i ==> !((#[trigger] self.entries@[j]).namespace@ == namespace@
                        && self.entries@[j].key@ == key@),
            decreases n - i,
        {
            let hit = str_eq(self.entries[i].namespace.as_str(), namespace) && str_eq(
                self.entries[i].key.as_str(),
                key,
            );
            if hit {
                let same = str_eq(self.entries[i].value.as_str(), value.as_str());
                let previous = self.entries[i].value.clone();
                let entry = WatchEntry {
                    namespace: namespace.to_owned(),
                    key: key.to_owned(),
                    value,
                };
                let ghost old_entries = self.entries@;
                self.entries.set(i, entry);
                proof {
                    lemma_lookup_prefix_miss(old_entries, i as int, namespace@, key@);
                    lemma_lookup_prefix_miss(self.entries@, i as int, namespace@, key@);
                    assert(self.entries@.skip(i as int)[0] == self.entries@[i as int]);
                    assert(old_entries.skip(i as int)[0] == old_entries[i as int]);
                    lemma_lookup_update_same_key(old_entries, i as int, self.entries@[i as int]);
                    assert(self.entries@ =~= old_entries.update(
                        i as int,
                        self.entries@[i as int],
                    ));
                }
                if same {
                    return ChangeKind::Unchanged;
                } else {
                    return ChangeKind::Changed(previous);
                }
            }
            i = i + 1;
        }
        let entry = WatchEntry { namespace: namespace.to_owned(), key: key.to_owned(), value };
        let ghost old_entries = self.entries@;
        self.entries.push(entry);
        proof {
            lemma_lookup_prefix_miss(old_entries, old_entries.len() as int, namespace@, key@);
            assert(old_entries.skip(old_entries.len() as int).len() == 0);
            lemma_lookup_push(old_entries, self.entries@[old_entries.len() as int]);
            assert(self.entries@ =~= old_entries.push(self.entries@[old_entries.len() as int]));
            lemma_lookup_prefix_miss(self.entries@, old_entries.len() as int, namespace@, key@);
            assert(self.entries@.skip(old_entries.len() as int)[0] == self.entries@[old_entries.len() as int]);
        }
        ChangeKind::First
    }
}

/// When the first `i` entries miss the queried key, the lookup answer
/// lives entirely in the rest.
proof fn lemma_lookup_prefix_miss(s: Seq<WatchEntry>, i: int, ns: Seq<char>, k: Seq<char>)
    requires
        0 <= i <= s.len(),
        forall|j: int| 0 <= j < i ==> !((#[trigger] s[j]).namespace@ == ns && s[j].key@ == k),
    ensures
        spec_lookup(s, ns, k) == spec_lookup(s.skip(i), ns, k),
    decreases i,
{
    if i == 0 {
        assert(s.skip(0) =~= s);
    } else {
        assert(!(s[0].namespace@ == ns && s[0].key@ == k));
        let s1 = s.drop_first();
        assert(forall|j: int|
            0 <= j < i - 1 ==> !((#[trigger] s1[j]).namespace@ == ns && s1[j].key@ == k));
        lemma_lookup_prefix_miss(s1, i - 1, ns, k);
        assert(s1.skip(i - 1) =~= s.skip(i));
    }
}

/// Replacing an entry with one for the same key moves only that key's
/// remembered value; every other query reads as before.
proof fn lemma_lookup_update_same_key(s: Seq<WatchEntry>, i: int, e: WatchEntry)
    requires
        0 <= i < s.len(),
        s[i].namespace@ == e.namespace@,
        s[i].key@ == e.key@,
    ensures
        forall|ns2: Seq<char>, k2: Seq<char>|
            !(ns2 == e.namespace@ && k2 == e.key@) ==> spec_lookup(s.update(i, e), ns2, k2)
                == spec_lookup(s, ns2, k2),
    decreases s.len(),
{
    let t = s.update(i, e);
    assert forall|ns2: Seq<char>, k2: Seq<char>|
        !(ns2 == e.namespace@ && k2 == e.key@) implies spec_lookup(t, ns2, k2) == spec_lookup(
        s,
        ns2,
        k2,
    ) by {
        if s[0].namespace@ == ns2 && s[0].key@ == k2 {
            if i == 0 {
                assert(s[0].namespace@ == e.namespace@ && s[0].key@ == e.key@);
                assert(false);
            } else {
                assert(t[0] == s[0]);
                assert(spec_lookup(t, ns2, k2) == Option::Some(t[0].value@));
                assert(spec_lookup(s, ns2, k2) == Option::Some(s[0].value@));
            }
        } else {
            assert(spec_lookup(s, ns2, k2) == spec_lookup(s.drop_first(), ns2, k2));
            if i == 0 {
                assert(t[0] == e);
                assert(t[0].namespace@ == s[0].namespace@ && t[0].key@ == s[0].key@);
                assert(spec_lookup(t, ns2, k2) == spec_lookup(t.drop_first(), ns2, k2));
                assert(t.drop_first() =~= s.drop_first());
            } else {
                assert(t[0] == s[0]);
                assert(spec_lookup(t, ns2, k2) == spec_lookup(t.drop_first(), ns2, k2));
                assert(t.drop_first() =~= s.drop_first().update(i - 1, e));
                assert(s.drop_first()[i - 1] == s[i]);
                lemma_lookup_update_same_key(s.drop_first(), i - 1, e);
                assert(spec_lookup(s.drop_first().update(i - 1, e), ns2, k2) == spec_lookup(
                    s.drop_first(),
                    ns2,
                    k2,
                ));
            }
        }
    }
}

/// Appending an entry cannot change what earlier entries answer for any
/// other key.
proof fn lemma_lookup_push(s: Seq<WatchEntry>, e: WatchEntry)
    ensures
        forall|ns2: Seq<char>, k2: Seq<char>|
            !(ns2 == e.namespace@ && k2 == e.key@) ==> spec_lookup(s.push(e), ns2, k2)
                == spec_lookup(s, ns2, k2),
    decreases s.len(),
{
    let t = s.push(e);
    assert forall|ns2: Seq<char>, k2: Seq<char>|
        !(ns2 == e.namespace@ && k2 == e.key@) implies spec_lookup(t, ns2, k2) == spec_lookup(
        s,
        ns2,
        k2,
    ) by {
        if s.len() == 0 {
            assert(t.len() == 1);
            assert(t[0] == e);
            assert(!(t[0].namespace@ == ns2 && t[0].key@ == k2));
            assert(spec_lookup(t, ns2, k2) == spec_lookup(t.drop_first(), ns2, k2));
            assert(t.drop_first() =~= Seq::<WatchEntry>::empty());
            assert(spec_lookup(Seq::<WatchEntry>::empty(), ns2, k2) is None);
        } else {
            assert(t[0] == s[0]);
            if s[0].namespace@ == ns2 && s[0].key@ == k2 {
                assert(spec_lookup(t, ns2, k2) == Option::Some(t[0].value@));
                assert(spec_lookup(s, ns2, k2) == Option::Some(s[0].value@));
            } else {
                assert(spec_lookup(t, ns2, k2) == spec_lookup(t.drop_first(), ns2, k2));
                assert(spec_lookup(s, ns2, k2) == spec_lookup(s.drop_first(), ns2, k2));
                assert(t.drop_first() =~= s.drop_first().push(e));
                lemma_lookup_push(s.drop_first(), e);
                assert(spec_lookup(s.drop_first().push(e), ns2, k2) == spec_lookup(
                    s.drop_first(),
                    ns2,
                    k2,
                ));
            }
        }
    }
}

} // verus!
