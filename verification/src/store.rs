//! The context store model: the saved contexts, kept in lexicographic
//! order by name, the active-context marker, and the directory roots that
//! every location is resolved against.
//!
//! The store is a flat mapping from context name to saved context. The
//! marker is a single string; the sentinel `none` stands for "no context
//! recorded". Operations on the model return the filesystem effects to
//! perform, so the caller can replay them against the real store.

use vstd::prelude::*;

verus! {

use crate::metadata::ContextMetadata;
use crate::metadata::MetadataView;
use crate::order::NameOrder;
use crate::order::lemma_lex_lt_asym;
use crate::order::lemma_lex_lt_connex;
use crate::order::lemma_lex_lt_irrefl;
use crate::order::lemma_lex_lt_ne;
use crate::order::lemma_lex_lt_trans;
use crate::order::lex_lt;
use crate::order::str_compare;
use crate::order::str_eq;

/// Mathematical image of one saved context.
pub struct EntryView {
    pub name: Seq<char>,
    pub blob: Seq<u8>,
    pub metadata: Option<MetadataView>,
}

/// One saved context: its name, its credential blob (opaque bytes, never
/// parsed), and its optional metadata record.
pub struct ContextEntry {
    pub name: String,
    pub blob: Vec<u8>,
    pub metadata: Option<ContextMetadata>,
}

impl View for ContextEntry {
    type V = EntryView;

    open spec fn view(&self) -> EntryView {
        EntryView {
            name: self.name@,
            blob: self.blob@,
            metadata: match self.metadata {
                Some(m) => Some(m@),
                None => None,
            },
        }
    }
}

/// The provider configuration a context stands for: the recorded one, or
/// the context name itself for contexts saved before metadata existed.
pub open spec fn profile_of(e: EntryView) -> Seq<char> {
    match e.metadata {
        Some(m) => m.gcloud_config,
        None => e.name,
    }
}

/// The first entry named `name`, if any.
pub open spec fn find_entry(s: Seq<EntryView>, name: Seq<char>) -> Option<EntryView>
    decreases s.len(),
{
    if s.len() == 0 {
        None
    } else if s[0].name == name {
        Some(s[0])
    } else {
        find_entry(s.drop_first(), name)
    }
}

/// `s` with `e` inserted at its ordered position, replacing an entry of
/// the same name if one is there.
pub open spec fn insert_entry(s: Seq<EntryView>, e: EntryView) -> Seq<EntryView>
    decreases s.len(),
{
    if s.len() == 0 {
        seq![e]
    } else if lex_lt(e.name, s[0].name) {
        seq![e] + s
    } else if e.name == s[0].name {
        seq![e] + s.drop_first()
    } else {
        seq![s[0]] + insert_entry(s.drop_first(), e)
    }
}

/// `s` with its first entry named `name` dropped, if one is there.
pub open spec fn remove_entry(s: Seq<EntryView>, name: Seq<char>) -> Seq<EntryView>
    decreases s.len(),
{
    if s.len() == 0 {
        s
    } else if s[0].name == name {
        s.drop_first()
    } else {
        seq![s[0]] + remove_entry(s.drop_first(), name)
    }
}

/// Entries in strictly increasing name order.
pub open spec fn sorted_entries(s: Seq<EntryView>) -> bool {
    forall|i: int, j: int| 0 <= i < j < s.len() ==> lex_lt(s[i].name, s[j].name)
}

/// Mathematical image of the whole store.
pub struct StoreView {
    pub store_dir: Seq<char>,
    pub gcloud_dir: Seq<char>,
    pub entries: Seq<EntryView>,
    pub current: Seq<char>,
}

impl StoreView {
    /// The saved names, in the order the entries stand.
    pub open spec fn names(self) -> Seq<Seq<char>> {
        self.entries.map_values(|e: EntryView| e.name)
    }

    /// The entry named `name`, if any.
    pub open spec fn find(self, name: Seq<char>) -> Option<EntryView> {
        find_entry(self.entries, name)
    }

    /// True when a context named `name` is saved.
    pub open spec fn has(self, name: Seq<char>) -> bool {
        self.find(name) is Some
    }

    /// Entries in strictly increasing name order.
    pub open spec fn sorted(self) -> bool {
        sorted_entries(self.entries)
    }
}

/// In a sequence with no entry named `name`, nothing is found.
pub proof fn lemma_find_absent(s: Seq<EntryView>, name: Seq<char>)
    requires
        forall|k: int| 0 <= k < s.len() ==> s[k].name != name,
    ensures
        find_entry(s, name) is None,
    decreases s.len(),
{
    if s.len() > 0 {
        lemma_find_absent(s.drop_first(), name);
    }
}

/// Finding splits at any prefix of name mismatches.
pub proof fn lemma_find_skip(s: Seq<EntryView>, name: Seq<char>, i: int)
    requires
        0 <= i <= s.len(),
        forall|k: int| 0 <= k < i ==> s[k].name != name,
    ensures
        find_entry(s, name) == find_entry(s.skip(i), name),
    decreases i,
{
    if i == 0 {
        assert(s.skip(0) =~= s);
    } else {
        assert(s.drop_first().skip(i - 1) =~= s.skip(i));
        lemma_find_skip(s.drop_first(), name, i - 1);
    }
}

/// After inserting `e`, `e` is what its name finds.
pub proof fn lemma_find_insert_same(s: Seq<EntryView>, e: EntryView)
    ensures
        find_entry(insert_entry(s, e), e.name) == Some(e),
    decreases s.len(),
{
    if s.len() == 0 {
    } else if lex_lt(e.name, s[0].name) {
        assert((seq![e] + s)[0] == e);
    } else if e.name == s[0].name {
        assert((seq![e] + s.drop_first())[0] == e);
    } else {
        lemma_find_insert_same(s.drop_first(), e);
        let t = seq![s[0]] + insert_entry(s.drop_first(), e);
        assert(t[0] == s[0]);
        assert(t.drop_first() =~= insert_entry(s.drop_first(), e));
        assert(s[0].name != e.name);
    }
}

/// Inserting `e` leaves every other name's lookup unchanged.
pub proof fn lemma_find_insert_other(s: Seq<EntryView>, e: EntryView, name: Seq<char>)
    requires
        name != e.name,
    ensures
        find_entry(insert_entry(s, e), name) == find_entry(s, name),
    decreases s.len(),
{
    if s.len() == 0 {
        let t = seq![e];
        assert(insert_entry(s, e) == t);
        assert(t[0] == e);
        assert(t.drop_first() =~= Seq::<EntryView>::empty());
        assert(find_entry(t, name) == find_entry(t.drop_first(), name));
        assert(find_entry(t.drop_first(), name) is None);
    } else if lex_lt(e.name, s[0].name) {
        let t = seq![e] + s;
        assert(insert_entry(s, e) == t);
        assert(t[0] == e);
        assert(t.drop_first() =~= s);
        assert(find_entry(t, name) == find_entry(t.drop_first(), name));
    } else if e.name == s[0].name {
        let t = seq![e] + s.drop_first();
        assert(insert_entry(s, e) == t);
        assert(t[0] == e);
        assert(t.drop_first() =~= s.drop_first());
        assert(find_entry(t, name) == find_entry(t.drop_first(), name));
        assert(find_entry(s, name) == find_entry(s.drop_first(), name));
    } else {
        lemma_find_insert_other(s.drop_first(), e, name);
        let t = seq![s[0]] + insert_entry(s.drop_first(), e);
        assert(insert_entry(s, e) == t);
        assert(t[0] == s[0]);
        assert(t.drop_first() =~= insert_entry(s.drop_first(), e));
        if s[0].name == name {
            assert(find_entry(t, name) == Some(s[0]));
            assert(find_entry(s, name) == Some(s[0]));
        } else {
            assert(find_entry(t, name) == find_entry(t.drop_first(), name));
            assert(find_entry(s, name) == find_entry(s.drop_first(), name));
        }
    }
}

/// Overwriting an entry twice keeps only the second version.
pub proof fn lemma_insert_twice(s: Seq<EntryView>, e1: EntryView, e2: EntryView)
    requires
        e1.name == e2.name,
    ensures
        insert_entry(insert_entry(s, e1), e2) =~= insert_entry(s, e2),
    decreases s.len(),
{
    if s.len() == 0 {
        lemma_lex_lt_irrefl(e1.name);
    } else if lex_lt(e1.name, s[0].name) {
        let t = seq![e1] + s;
        assert(t[0] == e1);
        lemma_lex_lt_irrefl(e1.name);
        assert(t.drop_first() =~= s);
    } else if e1.name == s[0].name {
        let t = seq![e1] + s.drop_first();
        assert(t[0] == e1);
        lemma_lex_lt_irrefl(e1.name);
        assert(t.drop_first() =~= s.drop_first());
    } else {
        lemma_insert_twice(s.drop_first(), e1, e2);
        let t = seq![s[0]] + insert_entry(s.drop_first(), e1);
        assert(t[0] == s[0]);
        assert(t.drop_first() =~= insert_entry(s.drop_first(), e1));
        assert(insert_entry(t, e2) =~= seq![s[0]] + insert_entry(t.drop_first(), e2));
    }
}

/// In a sorted sequence, a removed name is gone.
pub proof fn lemma_find_remove_self(s: Seq<EntryView>, name: Seq<char>)
    requires
        sorted_entries(s),
    ensures
        find_entry(remove_entry(s, name), name) is None,
    decreases s.len(),
{
    if s.len() == 0 {
    } else if s[0].name == name {
        assert forall|k: int| 0 <= k < s.drop_first().len() implies s.drop_first()[k].name
            != name by {
            assert(s.drop_first()[k] == s[k + 1]);
            assert(lex_lt(s[0].name, s[k + 1].name));
            lemma_lex_lt_ne(s[0].name, s[k + 1].name);
        }
        lemma_find_absent(s.drop_first(), name);
    } else {
        assert(sorted_entries(s.drop_first())) by {
            assert forall|i: int, j: int|
                0 <= i < j < s.drop_first().len() implies lex_lt(
                s.drop_first()[i].name,
                s.drop_first()[j].name,
            ) by {
                assert(s.drop_first()[i] == s[i + 1]);
                assert(s.drop_first()[j] == s[j + 1]);
            }
        }
        lemma_find_remove_self(s.drop_first(), name);
        let t = seq![s[0]] + remove_entry(s.drop_first(), name);
        assert(t[0] == s[0]);
        assert(t.drop_first() =~= remove_entry(s.drop_first(), name));
    }
}

/// Removing one name leaves every other name's lookup unchanged.
pub proof fn lemma_find_remove_other(s: Seq<EntryView>, name: Seq<char>, other: Seq<char>)
    requires
        other != name,
    ensures
        find_entry(remove_entry(s, name), other) == find_entry(s, other),
    decreases s.len(),
{
    if s.len() == 0 {
    } else if s[0].name == name {
    } else {
        lemma_find_remove_other(s.drop_first(), name, other);
        let t = seq![s[0]] + remove_entry(s.drop_first(), name);
        assert(t[0] == s[0]);
        assert(t.drop_first() =~= remove_entry(s.drop_first(), name));
    }
}

/// Characterizes an ordered insertion at a fresh position.
pub proof fn lemma_insert_entry_fresh(s: Seq<EntryView>, e: EntryView, pos: int)
    requires
        0 <= pos <= s.len(),
        forall|j: int| 0 <= j < pos ==> lex_lt(s[j].name, e.name),
        pos == s.len() || lex_lt(e.name, s[pos].name),
    ensures
        insert_entry(s, e) =~= s.insert(pos, e),
    decreases pos,
{
    if s.len() == 0 {
        assert(seq![e] =~= s.insert(0, e));
    } else if pos == 0 {
        assert(seq![e] + s =~= s.insert(0, e));
    } else {
        assert(lex_lt(s[0].name, e.name));
        lemma_lex_lt_asym(s[0].name, e.name);
        lemma_lex_lt_ne(s[0].name, e.name);
        lemma_insert_entry_fresh(s.drop_first(), e, pos - 1);
        assert(seq![s[0]] + s.drop_first().insert(pos - 1, e) =~= s.insert(pos, e));
    }
}

/// Characterizes an ordered insertion that replaces the entry at `pos`.
pub proof fn lemma_insert_entry_replace(s: Seq<EntryView>, e: EntryView, pos: int)
    requires
        0 <= pos < s.len(),
        forall|j: int| 0 <= j < pos ==> lex_lt(s[j].name, e.name),
        s[pos].name == e.name,
    ensures
        insert_entry(s, e) =~= s.update(pos, e),
    decreases pos,
{
    if pos == 0 {
        lemma_lex_lt_irrefl(e.name);
        assert(seq![e] + s.drop_first() =~= s.update(0, e));
    } else {
        assert(lex_lt(s[0].name, e.name));
        lemma_lex_lt_asym(s[0].name, e.name);
        lemma_lex_lt_ne(s[0].name, e.name);
        lemma_insert_entry_replace(s.drop_first(), e, pos - 1);
        assert(seq![s[0]] + s.drop_first().update(pos - 1, e) =~= s.update(pos, e));
    }
}

/// Characterizes removal at the position of the first matching name.
pub proof fn lemma_remove_entry_at(s: Seq<EntryView>, name: Seq<char>, pos: int)
    requires
        0 <= pos < s.len(),
        forall|j: int| 0 <= j < pos ==> s[j].name != name,
        s[pos].name == name,
    ensures
        remove_entry(s, name) =~= s.remove(pos),
    decreases pos,
{
    if pos == 0 {
        assert(s.drop_first() =~= s.remove(0));
    } else {
        lemma_remove_entry_at(s.drop_first(), name, pos - 1);
        assert(seq![s[0]] + s.drop_first().remove(pos - 1) =~= s.remove(pos));
    }
}

/// An inserted sequence keeps any strict lower bound shared by the old
/// entries and the new one.
pub proof fn lemma_insert_lower_bound(s: Seq<EntryView>, e: EntryView, x: Seq<char>)
    requires
        forall|k: int| 0 <= k < s.len() ==> lex_lt(x, #[trigger] s[k].name),
        lex_lt(x, e.name),
    ensures
        forall|k: int|
            0 <= k < insert_entry(s, e).len() ==> lex_lt(x, #[trigger] insert_entry(s, e)[k].name),
    decreases s.len(),
{
    if s.len() == 0 {
    } else if lex_lt(e.name, s[0].name) {
        let t = seq![e] + s;
        assert forall|k: int| 0 <= k < t.len() implies lex_lt(x, t[k].name) by {
            if k > 0 {
                assert(t[k] == s[k - 1]);
            }
        }
    } else if e.name == s[0].name {
        let t = seq![e] + s.drop_first();
        assert forall|k: int| 0 <= k < t.len() implies lex_lt(x, t[k].name) by {
            if k > 0 {
                assert(t[k] == s[k]);
            }
        }
    } else {
        assert forall|k: int| 0 <= k < s.drop_first().len() implies lex_lt(
            x,
            #[trigger] s.drop_first()[k].name,
        ) by {
            assert(s.drop_first()[k] == s[k + 1]);
        }
        lemma_insert_lower_bound(s.drop_first(), e, x);
        let t = seq![s[0]] + insert_entry(s.drop_first(), e);
        assert forall|k: int| 0 <= k < t.len() implies lex_lt(x, t[k].name) by {
            if k > 0 {
                assert(t[k] == insert_entry(s.drop_first(), e)[k - 1]);
            }
        }
    }
}

/// An ordered insertion keeps the entries strictly sorted.
pub proof fn lemma_insert_preserves_sorted(s: Seq<EntryView>, e: EntryView)
    requires
        sorted_entries(s),
    ensures
        sorted_entries(insert_entry(s, e)),
    decreases s.len(),
{
    if s.len() == 0 {
    } else if lex_lt(e.name, s[0].name) {
        let t = seq![e] + s;
        assert forall|i: int, j: int| 0 <= i < j < t.len() implies lex_lt(
            t[i].name,
            t[j].name,
        ) by {
            assert(t[j] == s[j - 1]);
            if i == 0 {
                if j > 1 {
                    lemma_lex_lt_trans(e.name, s[0].name, s[j - 1].name);
                }
            } else {
                assert(t[i] == s[i - 1]);
            }
        }
    } else if e.name == s[0].name {
        let t = seq![e] + s.drop_first();
        assert forall|i: int, j: int| 0 <= i < j < t.len() implies lex_lt(
            t[i].name,
            t[j].name,
        ) by {
            assert(t[j] == s[j]);
            if i > 0 {
                assert(t[i] == s[i]);
            }
        }
    } else {
        lemma_lex_lt_connex(e.name, s[0].name);
        assert(lex_lt(s[0].name, e.name));
        assert(sorted_entries(s.drop_first())) by {
            assert forall|i: int, j: int|
                0 <= i < j < s.drop_first().len() implies lex_lt(
                s.drop_first()[i].name,
                s.drop_first()[j].name,
            ) by {
                assert(s.drop_first()[i] == s[i + 1]);
                assert(s.drop_first()[j] == s[j + 1]);
            }
        }
        lemma_insert_preserves_sorted(s.drop_first(), e);
        assert forall|k: int| 0 <= k < s.drop_first().len() implies lex_lt(
            s[0].name,
            #[trigger] s.drop_first()[k].name,
        ) by {
            assert(s.drop_first()[k] == s[k + 1]);
        }
        lemma_insert_lower_bound(s.drop_first(), e, s[0].name);
        let t = seq![s[0]] + insert_entry(s.drop_first(), e);
        assert forall|i: int, j: int| 0 <= i < j < t.len() implies lex_lt(
            t[i].name,
            t[j].name,
        ) by {
            assert(t[j] == insert_entry(s.drop_first(), e)[j - 1]);
            if i > 0 {
                assert(t[i] == insert_entry(s.drop_first(), e)[i - 1]);
            }
        }
    }
}

/// In a strictly sorted sequence, names are pairwise distinct.
pub proof fn lemma_sorted_names_unique(s: Seq<EntryView>)
    requires
        sorted_entries(s),
    ensures
        forall|i: int, j: int|
            0 <= i < s.len() && 0 <= j < s.len() && s[i].name == s[j].name ==> i == j,
{
    assert forall|i: int, j: int|
        0 <= i < s.len() && 0 <= j < s.len() && s[i].name == s[j].name implies i == j by {
        if i < j {
            lemma_lex_lt_ne(s[i].name, s[j].name);
        }
        if j < i {
            lemma_lex_lt_ne(s[j].name, s[i].name);
        }
    }
}

/// The in-memory store.
pub struct ContextStore {
    store_dir: String,
    gcloud_dir: String,
    entries: Vec<ContextEntry>,
    current: String,
}

impl View for ContextStore {
    type V = StoreView;

    closed spec fn view(&self) -> StoreView {
        StoreView {
            store_dir: self.store_dir@,
            gcloud_dir: self.gcloud_dir@,
            entries: self.entries@.map_values(|e: ContextEntry| e@),
            current: self.current@,
        }
    }
}

impl ContextStore {
    /// The store's one invariant: entries strictly sorted by name.
    pub open spec fn wf(self) -> bool {
        self@.sorted()
    }

    /// A store with no saved contexts. `marker` is the raw content of the
    /// active-context marker file if it was readable; an unreadable or
    /// absent marker degrades to the sentinel `none`.
    pub fn new(store_dir: String, gcloud_dir: String, marker: Option<String>) -> (s: Self)
        ensures
            s.wf(),
            s@.store_dir == store_dir@,
            s@.gcloud_dir == gcloud_dir@,
            s@.entries.len() == 0,
            s@.current == match marker {
                Some(m) => m@,
                None => "none"@,
            },
    {
        let current = match marker {
            Some(m) => m,
            None => String::from_str("none"),
        };
        ContextStore { store_dir, gcloud_dir, entries: Vec::new(), current }
    }

    /// The store root every context lives under.
    pub fn store_dir(&self) -> (r: &String)
        ensures
            r@ == self@.store_dir,
    {
        &self.store_dir
    }

    /// The provider configuration directory holding the live blob.
    pub fn gcloud_dir(&self) -> (r: &String)
        ensures
            r@ == self@.gcloud_dir,
    {
        &self.gcloud_dir
    }

    /// The position of the named entry, scanning from the front.
    pub(crate) fn find_index(&self, name: &str) -> (r: Option<usize>)
        ensures
            match r {
                Some(i) => {
                    &&& i < self@.entries.len()
                    &&& self@.entries[i as int].name == name@
                    &&& forall|j: int| 0 <= j < i ==> self@.entries[j].name != name@
                    &&& self@.find(name@) == Some(self@.entries[i as int])
                },
                None => self@.find(name@) is None,
            },
    {
        let n = self.entries.len();
        let mut i: usize = 0;
        while i < n
            invariant
                n == self.entries.len(),
                i <= n,
                forall|j: int| 0 <= j < i ==> self@.entries[j].name != name@,
            decreases n - i,
        {
            if str_eq(self.entries[i].name.as_str(), name) {
                proof {
                    lemma_find_skip(self@.entries, name@, i as int);
                    assert(self@.entries.skip(i as int)[0] == self@.entries[i as int]);
                }
                return Some(i);
            }
            i += 1;
        }
        proof {
            lemma_find_absent(self@.entries, name@);
        }
        None
    }

    /// True when a context named `name` is saved in the store.
    pub fn context_exists(&self, name: &str) -> (r: bool)
        ensures
            r == self@.has(name@),
    {
        self.find_index(name).is_some()
    }

    /// The active-context marker value. Reading never fails: a store built
    /// from an unreadable marker already holds the sentinel `none`.
    pub fn get_current_tracking(&self) -> (r: String)
        ensures
            r@ == self@.current,
    {
        self.current.clone()
    }

    /// Every saved context name, in lexicographic order.
    pub fn list_contexts(&self) -> (r: Vec<String>)
        ensures
            r@.len() == self@.entries.len(),
            forall|i: int| 0 <= i < r@.len() ==> r@[i]@ == self@.entries[i].name,
            self.wf() ==> forall|i: int, j: int|
                0 <= i < j < r@.len() ==> lex_lt(r@[i]@, r@[j]@),
    {
        let n = self.entries.len();
        let mut out: Vec<String> = Vec::new();
        let mut i: usize = 0;
        while i < n
            invariant
                n == self.entries.len(),
                i <= n,
                out@.len() == i,
                forall|j: int| 0 <= j < i ==> out@[j]@ == self@.entries[j].name,
            decreases n - i,
        {
            out.push(self.entries[i].name.clone());
            i += 1;
        }
        out
    }

    /// Inserts `e` at its ordered position, replacing any entry of the
    /// same name.
    pub(crate) fn insert_sorted(&mut self, e: ContextEntry)
        requires
            old(self).wf(),
        ensures
            final(self).wf(),
            final(self)@.entries == insert_entry(old(self)@.entries, e@),
            final(self)@.store_dir == old(self)@.store_dir,
            final(self)@.gcloud_dir == old(self)@.gcloud_dir,
            final(self)@.current == old(self)@.current,
    {
        let ghost s0 = self@.entries;
        let n = self.entries.len();
        let mut i: usize = 0;
        loop
            invariant
                *self == *old(self),
                n == self.entries.len(),
                i <= n,
                old(self).wf(),
                forall|j: int| 0 <= j < i ==> lex_lt(s0[j].name, e@.name),
                s0 == self@.entries,
            ensures
                *self == *old(self),
                i <= n,
                forall|j: int| 0 <= j < i ==> lex_lt(s0[j].name, e@.name),
                i == n || lex_lt(e@.name, s0[i as int].name) || s0[i as int].name == e@.name,
            decreases n - i,
        {
            if i == n {
                break;
            }
            match str_compare(self.entries[i].name.as_str(), e.name.as_str()) {
                NameOrder::Before => {
                    i += 1;
                },
                _ => {
                    break;
                },
            }
        }
        if i < n && str_eq(self.entries[i].name.as_str(), e.name.as_str()) {
            let ghost ev = e@;
            let _ = self.entries.remove(i);
            self.entries.insert(i, e);
            proof {
                lemma_insert_entry_replace(s0, ev, i as int);
                assert(self@.entries =~= s0.update(i as int, ev));
                assert(self@.entries == insert_entry(s0, ev));
                assert forall|a: int, b: int|
                    0 <= a < b < self@.entries.len() implies lex_lt(
                    self@.entries[a].name,
                    self@.entries[b].name,
                ) by {
                    assert(s0.update(i as int, ev)[a].name == s0[a].name);
                    assert(s0.update(i as int, ev)[b].name == s0[b].name);
                }
            }
        } else {
            let ghost ev = e@;
            proof {
                if i < n {
                    assert(lex_lt(ev.name, s0[i as int].name));
                }
            }
            self.entries.insert(i, e);
            proof {
                lemma_insert_entry_fresh(s0, ev, i as int);
                assert(self@.entries =~= s0.insert(i as int, ev));
                assert(self@.entries == insert_entry(s0, ev));
                let t = s0.insert(i as int, ev);
                assert forall|a: int, b: int|
                    0 <= a < b < t.len() implies lex_lt(t[a].name, t[b].name) by {
                    if a < i && b < i {
                    } else if a < i && b == i {
                    } else if a < i && b > i {
                        assert(t[b] == s0[b - 1]);
                    } else if a == i && b > i {
                        assert(t[b] == s0[b - 1]);
                        if i < n {
                            if b - 1 > i {
                                lemma_lex_lt_trans(ev.name, s0[i as int].name, s0[b - 1].name);
                            }
                        }
                    } else {
                        assert(t[a] == s0[a - 1]);
                        assert(t[b] == s0[b - 1]);
                    }
                }
            }
        }
    }

    /// The metadata record saved for the named context: absent when the
    /// context is unknown, or was saved before records existed.
    pub fn load_context_metadata(&self, name: &str) -> (r: Option<ContextMetadata>)
        ensures
            crate::metadata::opt_record_view(r) == match find_entry(self@.entries, name@) {
                Some(e) => e.metadata,
                None => None::<MetadataView>,
            },
    {
        match self.find_index(name) {
            None => None,
            Some(i) => match &self.entry_at(i).metadata {
                Some(m) => Some(m.duplicate()),
                None => None,
            },
        }
    }

    /// Overwrites the recorded marker value.
    pub(crate) fn set_current(&mut self, value: String)
        ensures
            final(self)@.current == value@,
            final(self)@.entries == old(self)@.entries,
            final(self)@.store_dir == old(self)@.store_dir,
            final(self)@.gcloud_dir == old(self)@.gcloud_dir,
            final(self).wf() == old(self).wf(),
    {
        self.current = value;
    }

    /// The entry at position `i`.
    pub(crate) fn entry_at(&self, i: usize) -> (r: &ContextEntry)
        requires
            i < self@.entries.len(),
        ensures
            r@ == self@.entries[i as int],
    {
        &self.entries[i]
    }

    /// Drops the entry at position `i`.
    pub(crate) fn remove_at(&mut self, i: usize)
        requires
            i < old(self)@.entries.len(),
        ensures
            final(self)@.entries == old(self)@.entries.remove(i as int),
            final(self)@.store_dir == old(self)@.store_dir,
            final(self)@.gcloud_dir == old(self)@.gcloud_dir,
            final(self)@.current == old(self)@.current,
    {
        let _ = self.entries.remove(i);
        proof {
            assert(self@.entries =~= old(self)@.entries.remove(i as int));
        }
    }

    /// Restores one already-saved context while loading the store from
    /// disk; entries may arrive in any order.
    pub fn restore_entry(&mut self, name: String, blob: Vec<u8>, metadata: Option<ContextMetadata>)
        requires
            old(self).wf(),
        ensures
            final(self).wf(),
            final(self)@.entries == insert_entry(
                old(self)@.entries,
                EntryView { name: name@, blob: blob@, metadata: match metadata {
                    Some(m) => Some(m@),
                    None => None,
                } },
            ),
            final(self)@.store_dir == old(self)@.store_dir,
            final(self)@.gcloud_dir == old(self)@.gcloud_dir,
            final(self)@.current == old(self)@.current,
    {
        self.insert_sorted(ContextEntry { name, blob, metadata });
    }
}

} // verus!
