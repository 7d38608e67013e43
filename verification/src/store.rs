//! The correlation store: the shared map from correlation token to the
//! value that completes its login attempt (in the application, the sending
//! half of a one-shot channel).
//!
//! The store offers exactly three operations — `register`, `resolve` and
//! `expire` — and each is atomic with respect to the map it mutates: the
//! application serializes calls behind one lock, and the contracts here give
//! every caller an exact picture of the map before and after. Its central
//! law is exclusivity: once one delivery of a token has succeeded, every
//! later `resolve` or `expire` of that token reports "not found".

use vstd::prelude::*;
use crate::text::str_eq;

verus! {

struct Entry<V> {
    token: String,
    value: V,
}

/// A map from correlation token to pending value, keyed by the token's
/// characters.
pub struct CorrelationStore<V> {
    entries: Vec<Entry<V>>,
}

/// The abstract content of a list of entries: later entries override
/// earlier ones (the store never holds two entries for one token).
spec fn map_of<V>(s: Seq<Entry<V>>) -> Map<Seq<char>, V>
    decreases s.len(),
{
    if s.len() == 0 {
        Map::empty()
    } else {
        map_of(s.drop_last()).insert(s.last().token@, s.last().value)
    }
}

spec fn tokens_unique<V>(s: Seq<Entry<V>>) -> bool {
    forall|i: int, j: int|
        0 <= i < j < s.len() ==> #[trigger] s[i].token@ != #[trigger] s[j].token@
}

proof fn lemma_map_of_contains<V>(s: Seq<Entry<V>>, t: Seq<char>)
    ensures
        map_of(s).contains_key(t) <==> exists|i: int| 0 <= i < s.len() && #[trigger] s[i].token@ == t,
    decreases s.len(),
{
    if s.len() > 0 {
        lemma_map_of_contains(s.drop_last(), t);
        if s.last().token@ == t {
            assert(s[s.len() - 1].token@ == t);
        } else if map_of(s).contains_key(t) {
            let i = choose|i: int| 0 <= i < s.drop_last().len() && #[trigger] s.drop_last()[i].token@ == t;
            assert(s[i].token@ == t);
        } else {
            assert forall|i: int| 0 <= i < s.len() implies #[trigger] s[i].token@ != t by {
                if i < s.len() - 1 {
                    assert(s.drop_last()[i].token@ == s[i].token@);
                }
            }
        }
    }
}

proof fn lemma_map_of_index<V>(s: Seq<Entry<V>>, i: int)
    requires
        tokens_unique(s),
        0 <= i < s.len(),
    ensures
        map_of(s).contains_key(s[i].token@),
        map_of(s)[s[i].token@] == s[i].value,
    decreases s.len(),
{
    lemma_map_of_contains(s, s[i].token@);
    if i < s.len() - 1 {
        assert(s.drop_last()[i] == s[i]);
        assert(tokens_unique(s.drop_last())) by {
            assert forall|a: int, b: int|
                0 <= a < b < s.drop_last().len() implies #[trigger] s.drop_last()[a].token@ != #[trigger] s.drop_last()[b].token@ by {
                assert(s.drop_last()[a] == s[a] && s.drop_last()[b] == s[b]);
            }
        }
        lemma_map_of_index(s.drop_last(), i);
        assert(s[i].token@ != s.last().token@);
    }
}

proof fn lemma_map_of_remove<V>(s: Seq<Entry<V>>, i: int)
    requires
        tokens_unique(s),
        0 <= i < s.len(),
    ensures
        map_of(s.remove(i)) =~= map_of(s).remove(s[i].token@),
    decreases s.len(),
{
    let t = s[i].token@;
    if i == s.len() - 1 {
        assert(s.remove(i) =~= s.drop_last());
        lemma_map_of_contains(s.drop_last(), t);
        assert forall|a: int| 0 <= a < s.drop_last().len() implies #[trigger] s.drop_last()[a].token@ != t by {
            assert(s.drop_last()[a] == s[a]);
        }
        assert(!map_of(s.drop_last()).contains_key(t));
    } else {
        let dl = s.drop_last();
        assert(tokens_unique(dl)) by {
            assert forall|a: int, b: int|
                0 <= a < b < dl.len() implies #[trigger] dl[a].token@ != #[trigger] dl[b].token@ by {
                assert(dl[a] == s[a] && dl[b] == s[b]);
            }
        }
        lemma_map_of_remove(dl, i);
        assert(s.remove(i).drop_last() =~= dl.remove(i));
        assert(s.remove(i).last() == s.last());
        assert(s.last().token@ != t);
        assert(map_of(s.remove(i)) == map_of(dl.remove(i)).insert(s.last().token@, s.last().value));
    }
}

impl<V> CorrelationStore<V> {
    /// The store never holds two entries for one token.
    pub closed spec fn wf(&self) -> bool {
        tokens_unique(self.entries@)
    }

    /// An empty store.
    pub fn new() -> (r: Self)
        ensures
            r.wf(),
            r@ == Map::<Seq<char>, V>::empty(),
    {
        CorrelationStore { entries: Vec::new() }
    }

    /// The position of the entry for `token`, if one exists.
    fn find_index(&self, token: &str) -> (r: Option<usize>)
        ensures
            match r {
                Some(i) => i < self.entries@.len() && self.entries@[i as int].token@ == token@,
                None => forall|i: int|
                    0 <= i < self.entries@.len() ==> self.entries@[i].token@ != token@,
            },
    {
        let n = self.entries.len();
        let mut i: usize = 0;
        while i < n
            invariant
                n == self.entries@.len(),
                i <= n,
                forall|j: int| 0 <= j < i ==> self.entries@[j].token@ != token@,
            decreases n - i,
        {
            if str_eq(self.entries[i].token.as_str(), token) {
                return Some(i);
            }
            i = i + 1;
        }
        None
    }

    /// Whether an entry for `token` is pending.
    pub fn contains(&self, token: &str) -> (r: bool)
        requires
            self.wf(),
        ensures
            r == self@.contains_key(token@),
    {
        proof {
            lemma_map_of_contains(self.entries@, token@);
        }
        self.find_index(token).is_some()
    }

    /// Inserts a pending entry for `token`. A token that is already pending
    /// is left untouched and the call reports failure: callers guarantee
    /// uniqueness by drawing tokens at random.
    pub fn register(&mut self, token: String, value: V) -> (r: bool)
        requires
            old(self).wf(),
        ensures
            final(self).wf(),
            r == !old(self)@.contains_key(token@),
            r ==> final(self)@ == old(self)@.insert(token@, value),
            !r ==> final(self)@ == old(self)@,
    {
        proof {
            lemma_map_of_contains(self.entries@, token@);
        }
        match self.find_index(token.as_str()) {
            Some(_) => false,
            None => {
                let ghost s0 = self.entries@;
                let entry = Entry { token, value };
                self.entries.push(entry);
                proof {
                    assert(self.entries@.drop_last() =~= s0);
                }
                true
            },
        }
    }

    /// Atomically removes the entry for `token` and hands its value back for
    /// delivery. A token with no entry is a safe no-op: the store is
    /// unchanged and the call returns `None` ("not found").
    pub fn resolve(&mut self, token: &str) -> (r: Option<V>)
        requires
            old(self).wf(),
        ensures
            final(self).wf(),
            old(self)@.contains_key(token@) ==> {
                &&& r matches Some(v) && v == old(self)@[token@]
                &&& final(self)@ == old(self)@.remove(token@)
            },
            !old(self)@.contains_key(token@) ==> r is None && final(self)@ == old(self)@,
    {
        proof {
            lemma_map_of_contains(self.entries@, token@);
        }
        match self.find_index(token) {
            Some(i) => {
                proof {
                    lemma_map_of_index(self.entries@, i as int);
                    lemma_map_of_remove(self.entries@, i as int);
                }
                let entry = self.entries.remove(i);
                Some(entry.value)
            },
            None => None,
        }
    }

    /// Removes the entry for `token` without delivering a value (the
    /// timeout path). Reports whether anything was removed; a token with no
    /// entry is a safe no-op returning `false` ("not found").
    pub fn expire(&mut self, token: &str) -> (r: bool)
        requires
            old(self).wf(),
        ensures
            final(self).wf(),
            r == old(self)@.contains_key(token@),
            final(self)@ == old(self)@.remove(token@),
            !r ==> final(self)@ == old(self)@,
    {
        proof {
            if !self@.contains_key(token@) {
                assert(self@.remove(token@) =~= self@);
            }
        }
        let removed = self.resolve(token);
        removed.is_some()
    }
}

impl<V> View for CorrelationStore<V> {
    type V = Map<Seq<char>, V>;

    closed spec fn view(&self) -> Map<Seq<char>, V> {
        map_of(self.entries@)
    }
}

/// What `resolve(token)` does to the abstract store: whether it succeeds,
/// and the store it leaves behind.
pub open spec fn spec_resolve<V>(m: Map<Seq<char>, V>, t: Seq<char>) -> (bool, Map<Seq<char>, V>) {
    (m.contains_key(t), m.remove(t))
}

/// What `expire(token)` does to the abstract store.
pub open spec fn spec_expire<V>(m: Map<Seq<char>, V>, t: Seq<char>) -> (bool, Map<Seq<char>, V>) {
    (m.contains_key(t), m.remove(t))
}

/// For every token `t`, `resolve` and `expire` together succeed on `t` at
/// most once: after either succeeds, any later `resolve` or `expire` of the
/// same token finds no entry, so concurrent duplicate deliveries racing for
/// one token yield exactly one success and one "not found".
pub proof fn lemma_delivery_exclusive<V>(m: Map<Seq<char>, V>, t: Seq<char>)
    ensures
        spec_resolve(m, t).0 ==> !spec_resolve(spec_resolve(m, t).1, t).0,
        spec_resolve(m, t).0 ==> !spec_expire(spec_resolve(m, t).1, t).0,
        spec_expire(m, t).0 ==> !spec_resolve(spec_expire(m, t).1, t).0,
        spec_expire(m, t).0 ==> !spec_expire(spec_expire(m, t).1, t).0,
{
}

} // verus!
