//! The in-memory store of values the user has given this session, keyed by name.
use vstd::prelude::*;

use crate::settings::{opt_view, Settings};

verus! {

/// The key under which the store keeps the user's id.
pub const USER_ID_KEY: &'static str = "userId";

/// The map that a list of entries stands for: later entries win.
pub open spec fn entries_map(s: Seq<(String, String)>) -> Map<Seq<char>, Seq<char>>
    decreases s.len(),
{
    if s.len() == 0 {
        Map::empty()
    } else {
        entries_map(s.drop_last()).insert(s.last().0@, s.last().1@)
    }
}

/// No two entries have the same key.
pub open spec fn keys_distinct(s: Seq<(String, String)>) -> bool {
    forall|i: int, j: int| 0 <= i < j < s.len() ==> #[trigger] s[i].0@ != #[trigger] s[j].0@
}

proof fn lemma_entry_in_map(s: Seq<(String, String)>, i: int)
    requires
        keys_distinct(s),
        0 <= i < s.len(),
    ensures
        entries_map(s).contains_key(s[i].0@),
        entries_map(s)[s[i].0@] == s[i].1@,
    decreases s.len(),
{
    if i < s.len() - 1 {
        let t = s.drop_last();
        assert(t[i] == s[i]);
        assert(keys_distinct(t)) by {
            assert forall|a: int, b: int| 0 <= a < b < t.len() implies #[trigger] t[a].0@
                != #[trigger] t[b].0@ by {
                assert(t[a] == s[a] && t[b] == s[b]);
            }
        }
        lemma_entry_in_map(t, i);
        assert(s[i].0@ != s[s.len() - 1].0@);
    }
}

proof fn lemma_key_absent(s: Seq<(String, String)>, k: Seq<char>)
    requires
        forall|i: int| 0 <= i < s.len() ==> #[trigger] s[i].0@ != k,
    ensures
        !entries_map(s).contains_key(k),
    decreases s.len(),
{
    if s.len() > 0 {
        let t = s.drop_last();
        assert forall|i: int| 0 <= i < t.len() implies #[trigger] t[i].0@ != k by {
            assert(t[i] == s[i]);
        }
        lemma_key_absent(t, k);
        assert(s[s.len() - 1].0@ != k);
    }
}

proof fn lemma_replace_value(s: Seq<(String, String)>, i: int, e: (String, String))
    requires
        keys_distinct(s),
        0 <= i < s.len(),
        e.0@ == s[i].0@,
    ensures
        entries_map(s.update(i, e)) == entries_map(s).insert(e.0@, e.1@),
    decreases s.len(),
{
    let u = s.update(i, e);
    let t = s.drop_last();
    if i == s.len() - 1 {
        assert(u.drop_last() =~= t);
        assert(entries_map(u) =~= entries_map(s).insert(e.0@, e.1@));
    } else {
        assert(u.drop_last() =~= t.update(i, e));
        assert(keys_distinct(t)) by {
            assert forall|a: int, b: int| 0 <= a < b < t.len() implies #[trigger] t[a].0@
                != #[trigger] t[b].0@ by {
                assert(t[a] == s[a] && t[b] == s[b]);
            }
        }
        assert(t[i] == s[i]);
        lemma_replace_value(t, i, e);
        let last = s[s.len() - 1];
        assert(u[s.len() - 1] == last);
        assert(last.0@ != s[i].0@);
        assert(entries_map(u) =~= entries_map(s).insert(e.0@, e.1@));
    }
}

/// Values given during this session, each under its own key.
pub struct UserStore {
    entries: Vec<(String, String)>,
}

impl View for UserStore {
    type V = Map<Seq<char>, Seq<char>>;

    closed spec fn view(&self) -> Map<Seq<char>, Seq<char>> {
        entries_map(self.entries@)
    }
}

impl UserStore {
    #[verifier::type_invariant]
    spec fn no_duplicate_keys(self) -> bool {
        keys_distinct(self.entries@)
    }

    /// An empty store.
    pub fn new() -> (store: UserStore)
        ensures
            store@ == Map::<Seq<char>, Seq<char>>::empty(),
    {
        UserStore { entries: Vec::new() }
    }

    fn position(&self, key: &String) -> (r: Option<usize>)
        ensures
            match r {
                Some(i) => i < self.entries@.len() && self.entries@[i as int].0@ == key@,
                None => forall|i: int|
                    0 <= i < self.entries@.len() ==> #[trigger] self.entries@[i].0@ != key@,
            },
    {
        let mut i: usize = 0;
        while i < self.entries.len()
            invariant
                i <= self.entries@.len(),
                forall|j: int| 0 <= j < i ==> #[trigger] self.entries@[j].0@ != key@,
            decreases self.entries@.len() - i,
        {
            if self.entries[i].0 == *key {
                return Some(i);
            }
            i = i + 1;
        }
        None
    }

    /// The value stored under `key`, if there is one.
    pub fn get(&self, key: &str) -> (r: Option<String>)
        ensures
            opt_view(r) == (if self@.contains_key(key@) {
                Some(self@[key@])
            } else {
                None
            }),
    {
        proof {
            use_type_invariant(self);
        }
        let k = String::from_str(key);
        match self.position(&k) {
            Some(i) => {
                proof {
                    lemma_entry_in_map(self.entries@, i as int);
                }
                Some(self.entries[i].1.clone())
            },
            None => {
                proof {
                    lemma_key_absent(self.entries@, key@);
                }
                None
            },
        }
    }

    /// Stores `value` under `key`, replacing what was there.
    pub fn insert(&mut self, key: String, value: String)
        ensures
            final(self)@ == old(self)@.insert(key@, value@),
    {
        proof {
            use_type_invariant(&*self);
        }
        let pos = self.position(&key);
        let mut entries: Vec<(String, String)> = Vec::new();
        std::mem::swap(&mut entries, &mut self.entries);
        let ghost old_entries = entries@;
        match pos {
            Some(i) => {
                proof {
                    lemma_replace_value(old_entries, i as int, (key, value));
                }
                entries.set(i, (key, value));
                proof {
                    assert(keys_distinct(entries@)) by {
                        assert forall|a: int, b: int|
                            0 <= a < b < entries@.len() implies #[trigger] entries@[a].0@
                            != #[trigger] entries@[b].0@ by {
                            assert(entries@[a].0@ == old_entries[a].0@);
                            assert(entries@[b].0@ == old_entries[b].0@);
                        }
                    }
                }
            },
            None => {
                entries.push((key, value));
                proof {
                    assert(entries@.drop_last() =~= old_entries);
                    assert(keys_distinct(entries@)) by {
                        assert forall|a: int, b: int|
                            0 <= a < b < entries@.len() implies #[trigger] entries@[a].0@
                            != #[trigger] entries@[b].0@ by {
                            assert(entries@[a] == old_entries[a]);
                            if b < old_entries.len() {
                                assert(entries@[b] == old_entries[b]);
                            }
                        }
                    }
                }
            },
        }
        self.entries = entries;
    }
}

/// A read gives back the last value written under its key, and a write
/// under one key leaves every other key as it was.
pub proof fn law_read_after_write(
    store: Map<Seq<char>, Seq<char>>,
    key: Seq<char>,
    value: Seq<char>,
    other: Seq<char>,
)
    ensures
        store.insert(key, value).contains_key(key),
        store.insert(key, value)[key] == value,
        other != key ==> store.insert(key, value).contains_key(other) == store.contains_key(other),
        other != key && store.contains_key(other) ==> store.insert(key, value)[other]
            == store[other],
{
}

/// The user id that is reported: the one in the settings when there is one,
/// else the one the store holds, if any.
pub open spec fn spec_reported_user_id(
    settings_id: Option<Seq<char>>,
    store: Map<Seq<char>, Seq<char>>,
) -> Option<Seq<char>> {
    match settings_id {
        Some(id) => Some(id),
        None => if store.contains_key(USER_ID_KEY@) {
            Some(store[USER_ID_KEY@])
        } else {
            None
        },
    }
}

/// The store after a report: a user id found in the settings is kept in the
/// store too.
pub open spec fn spec_store_after_report(
    settings_id: Option<Seq<char>>,
    store: Map<Seq<char>, Seq<char>>,
) -> Map<Seq<char>, Seq<char>> {
    match settings_id {
        Some(id) => store.insert(USER_ID_KEY@, id),
        None => store,
    }
}

impl UserStore {
    /// Keeps `id` as the user's id.
    pub fn set_user_id(&mut self, id: String)
        ensures
            final(self)@ == old(self)@.insert(USER_ID_KEY@, id@),
    {
        self.insert(String::from_str(USER_ID_KEY), id);
    }

    /// Reports the user's id: the one in `settings` (which the store then
    /// keeps too), else the one the store holds.
    pub fn report_user_id(&mut self, settings: &Settings) -> (r: Option<String>)
        ensures
            opt_view(r) == spec_reported_user_id(opt_view(settings.user_id), old(self)@),
            final(self)@ == spec_store_after_report(opt_view(settings.user_id), old(self)@),
            settings.user_id matches Some(id) ==> (opt_view(r) == Some(id@) && final(self)@
                == old(self)@.insert(USER_ID_KEY@, id@)),
            settings.user_id is None ==> (final(self)@ == old(self)@ && (r is Some <==> old(
                self,
            )@.contains_key(USER_ID_KEY@)) && (r matches Some(v) ==> v@ == old(
                self,
            )@[USER_ID_KEY@])),
    {
        match &settings.user_id {
            Some(id) => {
                self.set_user_id(id.clone());
                Some(id.clone())
            },
            None => self.get(USER_ID_KEY),
        }
    }
}

/// Once an id is adopted (written to the settings and kept in the store),
/// it is the id reported, whether the settings are read back with it or
/// without it, and reporting leaves the store as it was.
pub proof fn law_adopted_id_is_reported(store: Map<Seq<char>, Seq<char>>, id: Seq<char>)
    ensures
        ({
            let kept = store.insert(USER_ID_KEY@, id);
            &&& spec_reported_user_id(Some(id), kept) == Some(id)
            &&& spec_reported_user_id(None, kept) == Some(id)
            &&& spec_store_after_report(Some(id), kept) == kept
            &&& spec_store_after_report(None, kept) == kept
        }),
{
    let kept = store.insert(USER_ID_KEY@, id);
    assert(kept.insert(USER_ID_KEY@, id) =~= kept);
}

/// Reporting twice reports the same id and changes the store no further.
pub proof fn law_report_is_stable(settings_id: Option<Seq<char>>, store: Map<Seq<char>, Seq<char>>)
    ensures
        ({
            let once = spec_store_after_report(settings_id, store);
            &&& spec_reported_user_id(settings_id, once) == spec_reported_user_id(settings_id, store)
            &&& spec_store_after_report(settings_id, once) == once
        }),
{
    let once = spec_store_after_report(settings_id, store);
    if let Some(id) = settings_id {
        assert(once.insert(USER_ID_KEY@, id) =~= once);
    }
}

} // verus!
