//! The session store: a mapping from 128-bit session identifiers to
//! session records, with create / get / list / exists operations.
//!
//! The store is modelled as a `Map<u128, SessionView>`; the executable
//! representation is a vector of key-value pairs with pairwise distinct
//! keys.

use vstd::prelude::*;

verus! {

/// Mathematical model of one session record.
pub ghost struct SessionView {
    pub name: Seq<char>,
    pub count: u32,
}

/// One named session.  `name` is fixed at creation; `count` is part of
/// the data model but no exposed operation ever changes it, so it
/// always reads as zero.
pub struct SessionState {
    pub name: String,
    pub count: u32,
}

impl View for SessionState {
    type V = SessionView;

    open spec fn view(&self) -> SessionView {
        SessionView { name: self.name@, count: self.count }
    }
}

impl SessionState {
    /// A fresh record with the given name and a zero counter.
    pub fn new(name: String) -> (r: SessionState)
        ensures
            r@ == (SessionView { name: name@, count: 0 }),
    {
        SessionState { name, count: 0 }
    }

    /// An independent copy of the record.
    pub fn snapshot(&self) -> (r: SessionState)
        ensures
            r@ == self@,
    {
        SessionState { name: self.name.clone(), count: self.count }
    }
}

/// The key-value pairs of a store entry sequence, at the spec level.
pub open spec fn kv_views(s: Seq<(u128, SessionState)>) -> Seq<(u128, SessionView)> {
    s.map_values(|p: (u128, SessionState)| (p.0, p.1@))
}

/// Pairwise distinct keys.
pub open spec fn distinct_keys(s: Seq<(u128, SessionView)>) -> bool {
    forall|i: int, j: int| 0 <= i < j < s.len() ==> s[i].0 != s[j].0
}

/// The mapping that a sequence of key-value pairs denotes; later pairs
/// override earlier ones with the same key.
pub open spec fn map_of(s: Seq<(u128, SessionView)>) -> Map<u128, SessionView>
    decreases s.len(),
{
    if s.len() == 0 {
        Map::empty()
    } else {
        map_of(s.drop_last()).insert(s.last().0, s.last().1)
    }
}

proof fn lemma_distinct_drop_last(s: Seq<(u128, SessionView)>)
    requires
        s.len() > 0,
        distinct_keys(s),
    ensures
        distinct_keys(s.drop_last()),
{
    assert forall|i: int, j: int| 0 <= i < j < s.drop_last().len() implies s.drop_last()[i].0
        != s.drop_last()[j].0 by {
        assert(s.drop_last()[i] == s[i]);
        assert(s.drop_last()[j] == s[j]);
    }
}

proof fn lemma_map_of_contains(s: Seq<(u128, SessionView)>, k: u128)
    ensures
        map_of(s).contains_key(k) <==> (exists|i: int| 0 <= i < s.len() && s[i].0 == k),
    decreases s.len(),
{
    if s.len() == 0 {
    } else {
        lemma_map_of_contains(s.drop_last(), k);
        if s.last().0 == k {
            assert(s[s.len() - 1].0 == k);
        } else {
            if exists|i: int| 0 <= i < s.len() && s[i].0 == k {
                let i = choose|i: int| 0 <= i < s.len() && s[i].0 == k;
                assert(i != s.len() - 1);
                assert(s.drop_last()[i].0 == k);
            }
            if map_of(s).contains_key(k) {
                let i = choose|i: int| 0 <= i < s.drop_last().len() && s.drop_last()[i].0 == k;
                assert(s[i].0 == k);
            }
        }
    }
}

proof fn lemma_map_of_get(s: Seq<(u128, SessionView)>, i: int)
    requires
        distinct_keys(s),
        0 <= i < s.len(),
    ensures
        map_of(s).contains_key(s[i].0),
        map_of(s)[s[i].0] == s[i].1,
    decreases s.len(),
{
    if i == s.len() - 1 {
    } else {
        lemma_distinct_drop_last(s);
        lemma_map_of_get(s.drop_last(), i);
        assert(s.drop_last()[i] == s[i]);
        assert(s.last().0 != s[i].0);
    }
}

proof fn lemma_map_of_push(s: Seq<(u128, SessionView)>, k: u128, v: SessionView)
    ensures
        map_of(s.push((k, v))) == map_of(s).insert(k, v),
{
    assert(s.push((k, v)).drop_last() =~= s);
    assert(s.push((k, v)).last() == (k, v));
}

proof fn lemma_map_of_update(s: Seq<(u128, SessionView)>, i: int, v: SessionView)
    requires
        distinct_keys(s),
        0 <= i < s.len(),
    ensures
        map_of(s.update(i, (s[i].0, v))) == map_of(s).insert(s[i].0, v),
    decreases s.len(),
{
    let k = s[i].0;
    let t = s.update(i, (k, v));
    if i == s.len() - 1 {
        assert(t.drop_last() =~= s.drop_last());
        assert(t.last() == (k, v));
        assert(map_of(s.drop_last()).insert(k, s.last().1).insert(k, v) =~= map_of(
            s.drop_last(),
        ).insert(k, v));
    } else {
        lemma_distinct_drop_last(s);
        assert(s.drop_last()[i] == s[i]);
        lemma_map_of_update(s.drop_last(), i, v);
        assert(t.drop_last() =~= s.drop_last().update(i, (k, v)));
        assert(t.last() == s.last());
        let m = map_of(s.drop_last());
        let lk = s.last().0;
        let lv = s.last().1;
        assert(lk != k);
        assert(m.insert(k, v).insert(lk, lv) =~= m.insert(lk, lv).insert(k, v));
    }
}

/// The session store.  All operations go through a single exclusive
/// owner (`&mut` for writes), so reads and writes never interleave
/// within one operation.
pub struct SessionStore {
    entries: Vec<(u128, SessionState)>,
}

impl View for SessionStore {
    type V = Map<u128, SessionView>;

    closed spec fn view(&self) -> Map<u128, SessionView> {
        map_of(kv_views(self.entries@))
    }
}

impl SessionStore {
    /// Keys of the stored entries are pairwise distinct.
    pub closed spec fn wf(&self) -> bool {
        distinct_keys(kv_views(self.entries@))
    }

    /// An empty store.
    pub fn new() -> (r: SessionStore)
        ensures
            r.wf(),
            r@ == Map::<u128, SessionView>::empty(),
    {
        let r = SessionStore { entries: Vec::new() };
        proof {
            assert(kv_views(r.entries@) =~= Seq::<(u128, SessionView)>::empty());
        }
        r
    }

    /// Index of the entry holding `id`, if the session exists.
    fn find(&self, id: u128) -> (r: Option<usize>)
        requires
            self.wf(),
        ensures
            match r {
                Some(i) => i < self.entries@.len() && self.entries@[i as int].0 == id
                    && self@.contains_key(id) && self@[id] == self.entries@[i as int].1@,
                None => !self@.contains_key(id),
            },
    {
        let n = self.entries.len();
        let mut i: usize = 0;
        while i < n
            invariant
                self.wf(),
                n == self.entries@.len(),
                i <= n,
                forall|j: int| 0 <= j < i ==> self.entries@[j].0 != id,
            decreases n - i,
        {
            if self.entries[i].0 == id {
                proof {
                    lemma_map_of_get(kv_views(self.entries@), i as int);
                }
                return Some(i);
            }
            i += 1;
        }
        proof {
            lemma_map_of_contains(kv_views(self.entries@), id);
        }
        None
    }

    /// Cheap existence check: whether `id` names a session.
    pub fn contains(&self, id: u128) -> (r: bool)
        requires
            self.wf(),
        ensures
            r == self@.contains_key(id),
    {
        self.find(id).is_some()
    }

    /// Snapshot copy of one session record, or `None` if `id` is
    /// unknown.  Signals not-found exactly on the unknown ids and has
    /// no side effect.
    pub fn get(&self, id: u128) -> (r: Option<SessionState>)
        requires
            self.wf(),
        ensures
            r is Some <==> self@.contains_key(id),
            r matches Some(s) ==> s@ == self@[id],
    {
        match self.find(id) {
            Some(i) => {
                let p = &self.entries[i];
                Some(p.1.snapshot())
            },
            None => None,
        }
    }

    /// Full snapshot of the store at a single point in time: a vector
    /// of key-record pairs, keys pairwise distinct, denoting exactly
    /// the store's current mapping.  Later writes do not affect the
    /// returned copy.
    pub fn list(&self) -> (r: Vec<(u128, SessionState)>)
        requires
            self.wf(),
        ensures
            distinct_keys(kv_views(r@)),
            map_of(kv_views(r@)) == self@,
    {
        let n = self.entries.len();
        let mut out: Vec<(u128, SessionState)> = Vec::new();
        let mut i: usize = 0;
        while i < n
            invariant
                self.wf(),
                n == self.entries@.len(),
                i <= n,
                out@.len() == i,
                forall|j: int| 0 <= j < i ==> out@[j].0 == self.entries@[j].0 && out@[j].1@
                    == self.entries@[j].1@,
            decreases n - i,
        {
            let p = &self.entries[i];
            out.push((p.0, p.1.snapshot()));
            i += 1;
        }
        proof {
            assert(kv_views(out@) =~= kv_views(self.entries@));
        }
        out
    }

    /// Creates a session under the given (caller-chosen) identifier.
    /// If the identifier is already present its record is replaced, so
    /// the result is the store's mapping with `id` bound to a fresh
    /// record in every case.
    pub fn create_with_id(&mut self, id: u128, name: String)
        requires
            old(self).wf(),
        ensures
            final(self).wf(),
            final(self)@ == old(self)@.insert(id, SessionView { name: name@, count: 0 }),
    {
        let record = SessionState::new(name);
        match self.find(id) {
            Some(i) => {
                let ghost before = kv_views(self.entries@);
                self.entries[i] = (id, record);
                proof {
                    assert(kv_views(self.entries@) =~= before.update(
                        i as int,
                        (id, SessionView { name: name@, count: 0 }),
                    ));
                    lemma_map_of_update(before, i as int, SessionView { name: name@, count: 0 });
                    assert forall|a: int, b: int|
                        0 <= a < b < kv_views(self.entries@).len() implies kv_views(
                        self.entries@,
                    )[a].0 != kv_views(self.entries@)[b].0 by {
                        assert(before[a].0 == kv_views(self.entries@)[a].0 || a == i);
                        assert(before[b].0 == kv_views(self.entries@)[b].0 || b == i);
                    }
                }
            },
            None => {
                let ghost before = kv_views(self.entries@);
                proof {
                    lemma_map_of_contains(before, id);
                }
                self.entries.push((id, record));
                proof {
                    assert(kv_views(self.entries@) =~= before.push(
                        (id, SessionView { name: name@, count: 0 }),
                    ));
                    lemma_map_of_push(before, id, SessionView { name: name@, count: 0 });
                }
            },
        }
    }

    /// Creates a session under a freshly generated random identifier
    /// and returns that identifier.  Whatever identifier the generator
    /// yields, the store afterwards binds it to a record with the given
    /// name and a zero counter.
    pub fn create(&mut self, name: String) -> (id: u128)
        requires
            old(self).wf(),
        ensures
            final(self).wf(),
            final(self)@ == old(self)@.insert(id, SessionView { name: name@, count: 0 }),
    {
        let id = fresh_id();
        self.create_with_id(id, name);
        id
    }
}

/// Relies on `uuid::Uuid::new_v4`: a freshly generated random
/// version-4 UUID, read out as its 128-bit integer value.  The value
/// is random, so nothing is promised of it; every caller must hold for
/// every outcome.
#[verifier::external_body]
fn fresh_id() -> u128 {
    uuid::Uuid::new_v4().as_u128()
}

} // verus!
