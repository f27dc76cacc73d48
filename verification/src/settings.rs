//! Host-persisted configuration: a mutable settings store and the read-only
//! map view that schema resolution consults.
//!
//! Both sides hold an ordered list of key/value entries with unique keys. The
//! store is the builder the host fills (insert or overwrite by key); at engine
//! creation it is converted, by move, into the map, after which lookup is the
//! only operation left.

use vstd::prelude::*;

verus! {

use vstd::pervasive::VecAdditionalExecFns;

/// One stored or default configuration value: a closed variant type compared
/// by variant and payload.
#[derive(Debug, PartialEq, Eq)]
pub enum SettingValue {
    Bool(bool),
    String(String),
}

/// The view of a setting value, with text as a character sequence.
pub enum SettingValueView {
    Bool(bool),
    String(Seq<char>),
}

impl View for SettingValue {
    type V = SettingValueView;

    open spec fn view(&self) -> SettingValueView {
        match self {
            SettingValue::Bool(b) => SettingValueView::Bool(*b),
            SettingValue::String(s) => SettingValueView::String(s@),
        }
    }
}

/// One key/value entry of a store or map.
#[derive(Debug, PartialEq, Eq)]
pub struct SettingsEntry {
    pub key: String,
    pub value: SettingValue,
}

/// The view of an entry.
pub struct SettingsEntryView {
    pub key: Seq<char>,
    pub value: SettingValueView,
}

impl View for SettingsEntry {
    type V = SettingsEntryView;

    open spec fn view(&self) -> SettingsEntryView {
        SettingsEntryView { key: self.key@, value: self.value@ }
    }
}

/// The views of a sequence of entries, in the same order.
pub open spec fn entries_view(v: Seq<SettingsEntry>) -> Seq<SettingsEntryView> {
    Seq::new(v.len(), |i: int| v[i]@)
}

/// The value stored under `key`: the value of the first entry whose key
/// matches, or nothing when no entry matches.
pub open spec fn stored(entries: Seq<SettingsEntryView>, key: Seq<char>) -> Option<
    SettingValueView,
>
    decreases entries.len(),
{
    if entries.len() == 0 {
        None
    } else if entries[0].key == key {
        Some(entries[0].value)
    } else {
        stored(entries.drop_first(), key)
    }
}

/// The keys of a sequence of entries, in order.
pub open spec fn key_seq(entries: Seq<SettingsEntryView>) -> Seq<Seq<char>> {
    Seq::new(entries.len(), |i: int| entries[i].key)
}

/// No two entries share a key.
pub open spec fn keys_unique(entries: Seq<SettingsEntryView>) -> bool {
    forall|i: int, j: int|
        0 <= i < j < entries.len() ==> entries[i].key != entries[j].key
}

/// Relies on str's equality: two string slices compare equal exactly when
/// they hold the same bytes, hence the same character sequences.
#[verifier::external_body]
pub(crate) fn str_eq(a: &str, b: &str) -> (r: bool)
    ensures
        r == (a@ == b@),
{
    a == b
}

/// Skipping entries that do not hold `key` leaves the stored value unchanged.
proof fn lemma_stored_skip_one(entries: Seq<SettingsEntryView>, key: Seq<char>, i: int)
    requires
        0 <= i < entries.len(),
        entries[i].key != key,
    ensures
        stored(entries.skip(i), key) == stored(entries.skip(i + 1), key),
{
    assert(entries.skip(i).drop_first() =~= entries.skip(i + 1));
}

/// The stored value only depends on the entries from the first match on: if
/// no entry before `i` holds `key`, lookup may start at `i`.
proof fn lemma_stored_from(entries: Seq<SettingsEntryView>, key: Seq<char>, i: int)
    requires
        0 <= i <= entries.len(),
        forall|j: int| 0 <= j < i ==> entries[j].key != key,
    ensures
        stored(entries, key) == stored(entries.skip(i), key),
    decreases i,
{
    if i > 0 {
        lemma_stored_from(entries, key, i - 1);
        lemma_stored_skip_one(entries, key, i - 1);
    } else {
        assert(entries.skip(0) =~= entries);
    }
}

/// What lookup means position by position: a stored value sits at the first
/// entry holding the key, and absence means no entry holds it.
pub proof fn lemma_stored_characterization(entries: Seq<SettingsEntryView>, key: Seq<char>)
    ensures
        match stored(entries, key) {
            Some(v) => exists|i: int|
                0 <= i < entries.len() && entries[i].key == key && entries[i].value == v,
            None => forall|i: int| 0 <= i < entries.len() ==> entries[i].key != key,
        },
    decreases entries.len(),
{
    if entries.len() > 0 && entries[0].key != key {
        lemma_stored_characterization(entries.drop_first(), key);
        if stored(entries, key) is Some {
            let v = stored(entries, key)->Some_0;
            let i = choose|i: int|
                0 <= i < entries.drop_first().len() && entries.drop_first()[i].key == key
                    && entries.drop_first()[i].value == v;
            assert(entries[i + 1].key == key && entries[i + 1].value == v);
        } else {
            assert forall|i: int| 0 <= i < entries.len() implies entries[i].key != key by {
                if i > 0 {
                    assert(entries.drop_first()[i - 1].key != key);
                }
            }
        }
    }
}

/// The read-only key/value mapping that schema resolution consults.
pub struct SettingsMap {
    entries: Vec<SettingsEntry>,
}

impl View for SettingsMap {
    type V = Seq<SettingsEntryView>;

    closed spec fn view(&self) -> Seq<SettingsEntryView> {
        entries_view(self.entries@)
    }
}

impl SettingsMap {
    /// Every map this module hands out keeps its keys unique.
    pub open spec fn wf(&self) -> bool {
        keys_unique(self@)
    }

    /// A map with no entries.
    pub fn new() -> (r: SettingsMap)
        ensures
            r@ == Seq::<SettingsEntryView>::empty(),
            r.wf(),
    {
        let m = SettingsMap { entries: Vec::new() };
        proof {
            assert(m@ =~= Seq::<SettingsEntryView>::empty());
        }
        m
    }

    /// The number of entries.
    pub fn len(&self) -> (r: usize)
        ensures
            r == self@.len(),
    {
        self.entries.len()
    }

    /// Looks the key up: the stored value, or nothing when the key was never
    /// set.
    pub fn get(&self, key: &str) -> (r: Option<&SettingValue>)
        ensures
            match r {
                Some(v) => stored(self@, key@) == Some(v@),
                None => stored(self@, key@) is None,
            },
    {
        let n = self.entries.len();
        let mut i: usize = 0;
        while i < n
            invariant
                n == self@.len(),
                0 <= i <= n,
                forall|j: int| 0 <= j < i ==> self@[j].key != key@,
            decreases n - i,
        {
            if str_eq(self.entries[i].key.as_str(), key) {
                proof {
                    lemma_stored_from(self@, key@, i as int);
                    assert(self@.skip(i as int)[0] == self@[i as int]);
                }
                return Some(&self.entries[i].value);
            }
            i += 1;
        }
        proof {
            lemma_stored_from(self@, key@, n as int);
            assert(self@.skip(n as int) =~= Seq::<SettingsEntryView>::empty());
        }
        None
    }
}

/// The mutable builder the host fills before handing it, by move, into the
/// engine.
pub struct SettingsStore {
    entries: Vec<SettingsEntry>,
}

impl View for SettingsStore {
    type V = Seq<SettingsEntryView>;

    closed spec fn view(&self) -> Seq<SettingsEntryView> {
        entries_view(self.entries@)
    }
}

impl SettingsStore {
    /// Every store this module hands out keeps its keys unique.
    pub open spec fn wf(&self) -> bool {
        keys_unique(self@)
    }

    /// An empty store.
    pub fn new() -> (r: SettingsStore)
        ensures
            r@ == Seq::<SettingsEntryView>::empty(),
            r.wf(),
    {
        let s = SettingsStore { entries: Vec::new() };
        proof {
            assert(s@ =~= Seq::<SettingsEntryView>::empty());
        }
        s
    }

    /// The number of entries.
    pub fn len(&self) -> (r: usize)
        ensures
            r == self@.len(),
    {
        self.entries.len()
    }

    /// The entry at position `index`, in insertion order.
    pub fn entry_at(&self, index: usize) -> (r: &SettingsEntry)
        requires
            index < self@.len(),
        ensures
            r@ == self@[index as int],
    {
        &self.entries[index]
    }

    /// Inserts the value under the key, or overwrites the value in place when
    /// the key is already present. Every other entry, and the key order, is
    /// untouched.
    pub fn set(&mut self, key: String, value: SettingValue)
        requires
            old(self).wf(),
        ensures
            final(self).wf(),
            stored(final(self)@, key@) == Some(value@),
            forall|k: Seq<char>|
                k != key@ ==> stored(final(self)@, k) == stored(old(self)@, k),
            key_seq(final(self)@) == (if stored(old(self)@, key@) is Some {
                key_seq(old(self)@)
            } else {
                key_seq(old(self)@).push(key@)
            }),
    {
        let ghost old_entries = self@;
        let ghost kv = key@;
        let ghost vv = value@;
        let n = self.entries.len();
        let mut i: usize = 0;
        while i < n
            invariant
                n == self@.len(),
                0 <= i <= n,
                old_entries == old(self)@,
                self@ == old_entries,
                forall|j: int| 0 <= j < i ==> self@[j].key != kv,
                keys_unique(old_entries),
                kv == key@,
                vv == value@,
            decreases n - i,
        {
            if str_eq(self.entries[i].key.as_str(), key.as_str()) {
                proof {
                    lemma_stored_from(old_entries, kv, i as int);
                    assert(old_entries.skip(i as int)[0] == old_entries[i as int]);
                }
                self.entries.set(i, SettingsEntry { key, value });
                proof {
                    assert(self@ =~= old_entries.update(
                        i as int,
                        SettingsEntryView { key: kv, value: vv },
                    ));
                    lemma_set_overwrites(old_entries, self@, i as int, kv, vv);
                    assert(key_seq(self@) =~= key_seq(old_entries));
                }
                return;
            }
            i += 1;
        }
        proof {
            lemma_stored_from(old_entries, kv, n as int);
            assert(old_entries.skip(n as int) =~= Seq::<SettingsEntryView>::empty());
        }
        self.entries.push(SettingsEntry { key, value });
        proof {
            assert(self@ =~= old_entries.push(SettingsEntryView { key: kv, value: vv }));
            lemma_set_appends(old_entries, self@, kv, vv);
        }
    }

    /// Stores a boolean under the key, inserting or overwriting as `set`
    /// does.
    pub fn set_bool(&mut self, key: &str, value: bool)
        requires
            old(self).wf(),
        ensures
            final(self).wf(),
            stored(final(self)@, key@) == Some(SettingValueView::Bool(value)),
            forall|k: Seq<char>|
                k != key@ ==> stored(final(self)@, k) == stored(old(self)@, k),
            key_seq(final(self)@) == (if stored(old(self)@, key@) is Some {
                key_seq(old(self)@)
            } else {
                key_seq(old(self)@).push(key@)
            }),
    {
        self.set(key.to_owned(), SettingValue::Bool(value));
    }

    /// Converts the store into the read-only map, entry for entry. The store
    /// moves: the builder's handle is consumed.
    pub fn into_map(self) -> (r: SettingsMap)
        ensures
            r@ == self@,
            self.wf() ==> r.wf(),
    {
        let ghost v = self@;
        let m = SettingsMap { entries: self.entries };
        proof {
            assert(m@ =~= v);
        }
        m
    }
}

/// Overwriting the value at the first entry holding `key` stores the new
/// value under `key`, leaves every other key's stored value unchanged, and
/// keeps the key order and uniqueness.
proof fn lemma_set_overwrites(
    before: Seq<SettingsEntryView>,
    after: Seq<SettingsEntryView>,
    i: int,
    key: Seq<char>,
    value: SettingValueView,
)
    requires
        keys_unique(before),
        0 <= i < before.len(),
        before[i].key == key,
        forall|j: int| 0 <= j < i ==> before[j].key != key,
        after == before.update(i, SettingsEntryView { key, value }),
    ensures
        keys_unique(after),
        stored(after, key) == Some(value),
        forall|k: Seq<char>| k != key ==> stored(after, k) == stored(before, k),
        key_seq(after) == key_seq(before),
    decreases i,
{
    assert(key_seq(after) =~= key_seq(before));
    if i == 0 {
        assert forall|k: Seq<char>| k != key implies stored(after, k) == stored(before, k) by {
            assert(after.drop_first() =~= before.drop_first());
        }
    } else {
        let b2 = before.drop_first();
        let a2 = after.drop_first();
        assert(a2 =~= b2.update(i - 1, SettingsEntryView { key, value }));
        lemma_set_overwrites(b2, a2, i - 1, key, value);
        assert(after[0] == before[0]);
        assert(stored(after, key) == Some(value));
        assert forall|k: Seq<char>| k != key implies stored(after, k) == stored(before, k) by {
            if after[0].key != k {
                assert(stored(after, k) == stored(a2, k));
                assert(stored(before, k) == stored(b2, k));
            }
        }
    }
}

/// Appending an entry with an unseen key stores its value under that key,
/// leaves every other key's stored value unchanged, and keeps uniqueness; the
/// new key comes last in the key order.
proof fn lemma_set_appends(
    before: Seq<SettingsEntryView>,
    after: Seq<SettingsEntryView>,
    key: Seq<char>,
    value: SettingValueView,
)
    requires
        keys_unique(before),
        forall|j: int| 0 <= j < before.len() ==> before[j].key != key,
        after == before.push(SettingsEntryView { key, value }),
    ensures
        keys_unique(after),
        stored(after, key) == Some(value),
        forall|k: Seq<char>| k != key ==> stored(after, k) == stored(before, k),
        key_seq(after) == key_seq(before).push(key),
    decreases before.len(),
{
    assert(key_seq(after) =~= key_seq(before).push(key));
    if before.len() == 0 {
        assert(after[0].key == key);
        assert forall|k: Seq<char>| k != key implies stored(after, k) == stored(before, k) by {
            assert(stored(after, k) == stored(after.drop_first(), k));
            assert(after.drop_first() =~= Seq::<SettingsEntryView>::empty());
        }
    } else {
        let b2 = before.drop_first();
        let a2 = after.drop_first();
        assert(a2 =~= b2.push(SettingsEntryView { key, value }));
        lemma_set_appends(b2, a2, key, value);
        assert(after[0] == before[0]);
        assert(stored(after, key) == Some(value));
        assert forall|k: Seq<char>| k != key implies stored(after, k) == stored(before, k) by {
            if after[0].key != k {
                assert(stored(after, k) == stored(a2, k));
                assert(stored(before, k) == stored(b2, k));
            }
        }
        assert forall|i2: int, j2: int|
            0 <= i2 < j2 < after.len() implies after[i2].key != after[j2].key by {
            if j2 < after.len() - 1 {
                assert(before[i2].key != before[j2].key);
            } else if i2 > 0 {
                assert(a2[i2 - 1].key != a2[j2 - 1].key);
            } else {
                assert(before[0].key != key);
            }
        }
    }
}

} // verus!


