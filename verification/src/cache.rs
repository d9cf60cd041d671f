//! The session store: a mapping from opaque session identifier to backend
//! access credential. Entries are inserted by the callback exchanger and
//! looked up by the session guard; nothing ever evicts or expires them, so
//! the store grows by one entry per successful login for the lifetime of
//! the process (a deliberate simplification; a resource-exhaustion risk).
//!
//! The store is a plain owned value; callers that share it across tasks
//! wrap it in their own lock, held only for the duration of a single `put`
//! or `get`.

use vstd::prelude::*;
use vstd::map::*;

verus! {

/// The map described by a sequence of key/value entries, later entries
/// overriding earlier ones.
pub open spec fn spec_entries_map(s: Seq<(String, String)>) -> Map<Seq<char>, Seq<char>>
    decreases s.len(),
{
    if s.len() == 0 {
        Map::<Seq<char>, Seq<char>>::empty()
    } else {
        spec_entries_map(s.drop_last()).insert(s.last().0@, s.last().1@)
    }
}

/// Maps session identifiers to backend access credentials.
pub struct SessionStore {
    entries: Vec<(String, String)>,
}

impl View for SessionStore {
    type V = Map<Seq<char>, Seq<char>>;

    closed spec fn view(&self) -> Map<Seq<char>, Seq<char>> {
        spec_entries_map(self.entries@)
    }
}

/// A key occurs somewhere in the entries.
spec fn has_key(s: Seq<(String, String)>, k: Seq<char>) -> bool {
    exists|i: int| 0 <= i < s.len() && s[i].0@ == k
}

/// No two entries share a key.
spec fn unique_keys(s: Seq<(String, String)>) -> bool {
    forall|i: int, j: int| 0 <= i < j < s.len() ==> s[i].0@ != s[j].0@
}

proof fn lemma_map_domain(s: Seq<(String, String)>, k: Seq<char>)
    ensures
        spec_entries_map(s).contains_key(k) <==> has_key(s, k),
    decreases s.len(),
{
    if s.len() > 0 {
        lemma_map_domain(s.drop_last(), k);
        if s.last().0@ == k {
            assert(s[s.len() - 1].0@ == k);
        } else if has_key(s, k) {
            let i = choose|i: int| 0 <= i < s.len() && s[i].0@ == k;
            assert(s.drop_last()[i] == s[i]);
        } else {
            assert(forall|i: int| 0 <= i < s.len() - 1 ==> s.drop_last()[i] == s[i]);
        }
    }
}

proof fn lemma_map_value(s: Seq<(String, String)>, i: int)
    requires
        unique_keys(s),
        0 <= i < s.len(),
    ensures
        spec_entries_map(s).contains_key(s[i].0@),
        spec_entries_map(s)[s[i].0@] == s[i].1@,
    decreases s.len(),
{
    if i < s.len() - 1 {
        assert(s.drop_last()[i] == s[i]);
        lemma_map_value(s.drop_last(), i);
        assert(s.last().0@ != s[i].0@);
    }
}

impl SessionStore {
    /// The store's keys are pairwise distinct.
    pub closed spec fn wf(&self) -> bool {
        unique_keys(self.entries@)
    }

    /// An empty store.
    pub fn new() -> (s: SessionStore)
        ensures
            s@ == Map::<Seq<char>, Seq<char>>::empty(),
            s.wf(),
    {
        SessionStore { entries: Vec::new() }
    }

    /// Looks a session identifier up; returns the credential stored under
    /// it, or nothing when the identifier was never inserted.
    pub fn get(&self, key: &String) -> (r: Option<&String>)
        requires
            self.wf(),
        ensures
            match r {
                Some(v) => self@.contains_key(key@) && v@ == self@[key@],
                None => !self@.contains_key(key@),
            },
    {
        let n = self.entries.len();
        let mut i: usize = 0;
        while i < n
            invariant
                n == self.entries@.len(),
                0 <= i <= n,
                self.wf(),
                forall|j: int| 0 <= j < i ==> self.entries@[j].0@ != key@,
            decreases n - i,
        {
            if self.entries[i].0 == *key {
                proof {
                    lemma_map_value(self.entries@, i as int);
                }
                return Some(&self.entries[i].1);
            }
            i = i + 1;
        }
        proof {
            lemma_map_domain(self.entries@, key@);
        }
        None
    }

    /// Inserts an entry, overwriting any entry already stored under the
    /// same identifier.
    #[verifier::loop_isolation(false)]
    pub fn put(&mut self, key: String, value: String)
        requires
            old(self).wf(),
        ensures
            final(self).wf(),
            final(self)@ == old(self)@.insert(key@, value@),
    {
        let ghost s0 = self.entries@;
        let n = self.entries.len();
        let mut i: usize = 0;
        while i < n
            invariant
                self.entries@ == s0,
                n == s0.len(),
                0 <= i <= n,
                unique_keys(s0),
                forall|j: int| 0 <= j < i ==> s0[j].0@ != key@,
            decreases n - i,
        {
            if self.entries[i].0 == *(&key) {
                proof {
                    lemma_remove_then_insert(s0, i as int, key@, value@);
                    assert(spec_entries_map(s0.remove(i as int).push((key, value)))
                        == spec_entries_map(s0).insert(key@, value@));
                    assert(unique_keys(s0.remove(i as int).push((key, value))));
                }
                self.entries.remove(i);
                self.entries.push((key, value));
                return;
            }
            i = i + 1;
        }
        proof {
            lemma_map_domain(s0, key@);
            assert(spec_entries_map(s0.push((key, value))).contains_key(key@)) by {
                assert(s0.push((key, value)).last() == (key, value));
            }
            assert(s0.push((key, value)).drop_last() == s0);
        }
        self.entries.push((key, value));
    }
}

/// Removing the one entry that holds a key and appending a fresh entry for
/// that key is, in the map, a plain insert.
proof fn lemma_remove_then_insert(s: Seq<(String, String)>, i: int, k: Seq<char>, v: Seq<char>)
    requires
        unique_keys(s),
        0 <= i < s.len(),
        s[i].0@ == k,
        forall|j: int| 0 <= j < i ==> s[j].0@ != k,
    ensures
        unique_keys(s.remove(i)),
        forall|p: (String, String)|
            p.0@ == k && p.1@ == v ==> {
                &&& unique_keys(s.remove(i).push(p))
                &&& #[trigger] spec_entries_map(s.remove(i).push(p)) == spec_entries_map(s).insert(k, v)
            },
{
    assert forall|p: (String, String)| p.0@ == k && p.1@ == v implies {
        &&& unique_keys(s.remove(i).push(p))
        &&& #[trigger] spec_entries_map(s.remove(i).push(p)) == spec_entries_map(s).insert(k, v)
    } by {
        let r = s.remove(i);
        assert forall|a: int, b: int| 0 <= a < b < r.len() implies r[a].0@ != r[b].0@ by {
            let a0 = if a < i { a } else { a + 1 };
            let b0 = if b < i { b } else { b + 1 };
            assert(r[a] == s[a0] && r[b] == s[b0]);
        }
        assert forall|j: int| 0 <= j < r.len() implies r[j].0@ != k by {
            let j0 = if j < i { j } else { j + 1 };
            assert(r[j] == s[j0]);
            if j0 > i {
                assert(s[i].0@ != s[j0].0@);
            }
        }
        assert(r.push(p).drop_last() == r);
        lemma_no_key_remove(s, r, i, k);
        lemma_map_domain(r, k);
        assert_maps_equal!(spec_entries_map(r).insert(k, v), spec_entries_map(s).insert(k, v));
    }
}

/// Dropping the only entry that holds key `k` leaves every other key's
/// value unchanged.
proof fn lemma_no_key_remove(s: Seq<(String, String)>, r: Seq<(String, String)>, i: int, k: Seq<char>)
    requires
        unique_keys(s),
        0 <= i < s.len(),
        s[i].0@ == k,
        r == s.remove(i),
    ensures
        forall|k2: Seq<char>| k2 != k ==> #[trigger] spec_entries_map(r).contains_key(k2)
            == spec_entries_map(s).contains_key(k2),
        forall|k2: Seq<char>|
            k2 != k && #[trigger] spec_entries_map(s).contains_key(k2)
                ==> spec_entries_map(r)[k2] == spec_entries_map(s)[k2],
{
    assert forall|k2: Seq<char>| k2 != k implies #[trigger] spec_entries_map(r).contains_key(k2)
        == spec_entries_map(s).contains_key(k2) by {
        lemma_map_domain(r, k2);
        lemma_map_domain(s, k2);
        if has_key(s, k2) {
            let j = choose|j: int| 0 <= j < s.len() && s[j].0@ == k2;
            let j2 = if j < i { j } else { j - 1 };
            assert(r[j2] == s[j]);
        }
        if has_key(r, k2) {
            let j = choose|j: int| 0 <= j < r.len() && r[j].0@ == k2;
            let j0 = if j < i { j } else { j + 1 };
            assert(r[j] == s[j0]);
        }
    }
    assert forall|k2: Seq<char>|
        k2 != k && #[trigger] spec_entries_map(s).contains_key(k2) implies
        spec_entries_map(r)[k2] == spec_entries_map(s)[k2] by {
        lemma_map_domain(s, k2);
        let j = choose|j: int| 0 <= j < s.len() && s[j].0@ == k2;
        let j2 = if j < i { j } else { j - 1 };
        assert(r[j2] == s[j]);
        assert forall|a: int, b: int| 0 <= a < b < r.len() implies r[a].0@ != r[b].0@ by {
            let a0 = if a < i { a } else { a + 1 };
            let b0 = if b < i { b } else { b + 1 };
            assert(r[a] == s[a0] && r[b] == s[b0]);
        }
        lemma_map_value(s, j);
        lemma_map_value(r, j2);
    }
}

/// Creates a fresh, empty session store.
pub fn new_cache() -> (s: SessionStore)
    ensures
        s@ == Map::<Seq<char>, Seq<char>>::empty(),
        s.wf(),
{
    SessionStore::new()
}

/// After `put(k, v)`, `get(k)` yields exactly `v`, and every other key is
/// bound — or unbound — exactly as it was before.
pub proof fn lemma_store_put_get(
    m: Map<Seq<char>, Seq<char>>,
    k: Seq<char>,
    v: Seq<char>,
    other: Seq<char>,
)
    ensures
        m.insert(k, v).contains_key(k),
        m.insert(k, v)[k] == v,
        other != k ==> m.insert(k, v).contains_key(other) == m.contains_key(other),
        other != k && m.contains_key(other) ==> m.insert(k, v)[other] == m[other],
{
}

} // verus!
