//! The library's cross-cutting guarantees, stated and proved over the
//! model: what the validator accepts and rejects, what a save leaves
//! listed, that a second save replaces the first whole, that quiet mode
//! changes output only, and that a save secures the blob it writes.

use vstd::prelude::*;

verus! {

use crate::metadata::MetadataView;
use crate::names::has_control_char;
use crate::names::seq_has_char;
use crate::names::valid_name;
use crate::ops::EffectView;
use crate::ops::NoticeView;
use crate::ops::detail_notices;
use crate::ops::save_effects;
use crate::ops::save_notices;
use crate::ops::save_transition;
use crate::paths::context_adc_path_spec;
use crate::store::EntryView;
use crate::store::StoreView;
use crate::store::find_entry;
use crate::store::lemma_find_insert_other;
use crate::store::lemma_find_insert_same;
use crate::store::lemma_insert_preserves_sorted;
use crate::store::lemma_insert_twice;
use crate::store::lemma_sorted_names_unique;

/// A character of an ordinary name: a letter, a digit, a hyphen or an
/// underscore.
pub open spec fn is_word_char(c: char) -> bool {
    (97 <= c as int <= 122) || (65 <= c as int <= 90) || (48 <= c as int <= 57) || c == '-' || c
        == '_'
}

/// The validator rejects every unsafe or ambiguous name: the empty name,
/// the two reserved names, any name with a leading dot, a path separator,
/// or a control character.
pub proof fn lemma_validator_rejections(s: Seq<char>)
    ensures
        s.len() == 0 ==> !valid_name(s),
        s == seq!['.'] ==> !valid_name(s),
        s == seq!['.', '.'] ==> !valid_name(s),
        s.len() > 0 && s[0] == '.' ==> !valid_name(s),
        seq_has_char(s, '/') ==> !valid_name(s),
        seq_has_char(s, '\\') ==> !valid_name(s),
        has_control_char(s) ==> !valid_name(s),
{
}

/// The validator accepts every nonempty name of letters, digits, hyphens
/// and underscores.
pub proof fn lemma_validator_accepts(s: Seq<char>)
    requires
        s.len() > 0,
        forall|i: int| 0 <= i < s.len() ==> is_word_char(#[trigger] s[i]),
    ensures
        valid_name(s),
{
    assert(is_word_char(s[0]));
    assert(s[0] != '.');
    if s == seq!['.'] {
        assert(s[0] == '.');
    }
    if s == seq!['.', '.'] {
        assert(s[0] == '.');
    }
    if seq_has_char(s, '/') {
        let i = choose|i: int| 0 <= i < s.len() && s[i] == '/';
        assert(is_word_char(s[i]));
    }
    if seq_has_char(s, '\\') {
        let i = choose|i: int| 0 <= i < s.len() && s[i] == '\\';
        assert(is_word_char(s[i]));
    }
    if has_control_char(s) {
        let i = choose|i: int| 0 <= i < s.len() && (s[i] as u32) < 32;
        assert(is_word_char(s[i]));
    }
}

/// In a well-formed store, no name is listed twice.
pub proof fn lemma_listed_names_unique(s: StoreView)
    requires
        s.sorted(),
    ensures
        forall|i: int, j: int|
            0 <= i < s.entries.len() && 0 <= j < s.entries.len() && s.entries[i].name
                == s.entries[j].name ==> i == j,
{
    lemma_sorted_names_unique(s.entries);
}

/// After a save, the store is still well formed, the saved name is
/// present — exactly once, by the uniqueness law — and the marker names
/// it.
pub proof fn lemma_save_then_listed(
    s: StoreView,
    name: Seq<char>,
    blob: Seq<u8>,
    record: MetadataView,
)
    requires
        s.sorted(),
    ensures
        save_transition(s, name, blob, record).current == name,
        save_transition(s, name, blob, record).has(name),
        save_transition(s, name, blob, record).sorted(),
{
    let e = EntryView { name, blob, metadata: Some(record) };
    lemma_find_insert_same(s.entries, e);
    lemma_insert_preserves_sorted(s.entries, e);
}

/// A save touches one context alone: every other name's lookup is the
/// same before and after.
pub proof fn lemma_save_preserves_others(
    s: StoreView,
    name: Seq<char>,
    blob: Seq<u8>,
    record: MetadataView,
    other: Seq<char>,
)
    requires
        other != name,
    ensures
        find_entry(save_transition(s, name, blob, record).entries, other) == find_entry(
            s.entries,
            other,
        ),
{
    let e = EntryView { name, blob, metadata: Some(record) };
    lemma_find_insert_other(s.entries, e, other);
}

/// Saving a name twice keeps only the second blob and record: the second
/// save replaces the first whole, with no merging of old fields.
pub proof fn lemma_save_replaces_whole(
    s: StoreView,
    name: Seq<char>,
    blob1: Seq<u8>,
    record1: MetadataView,
    blob2: Seq<u8>,
    record2: MetadataView,
)
    ensures
        save_transition(save_transition(s, name, blob1, record1), name, blob2, record2)
            == save_transition(s, name, blob2, record2),
        find_entry(save_transition(s, name, blob2, record2).entries, name) == Some(
            EntryView { name, blob: blob2, metadata: Some(record2) },
        ),
{
    let e1 = EntryView { name, blob: blob1, metadata: Some(record1) };
    let e2 = EntryView { name, blob: blob2, metadata: Some(record2) };
    lemma_insert_twice(s.entries, e1, e2);
    lemma_find_insert_same(s.entries, e2);
}

/// A save restricts the credential blob it writes to its owner: in the
/// effect sequence, the blob write is followed by the owner-only
/// restriction of the very same path, before the marker moves.
pub proof fn lemma_save_secures_blob(
    s: StoreView,
    name: Seq<char>,
    blob: Seq<u8>,
    record: MetadataView,
)
    ensures
        save_effects(s, name, blob, record)[1] == (EffectView::WriteBlob {
            path: context_adc_path_spec(s.store_dir, name),
            content: blob,
        }),
        save_effects(s, name, blob, record)[3] == (EffectView::RestrictToOwner {
            path: context_adc_path_spec(s.store_dir, name),
        }),
        save_effects(s, name, blob, record).len() == 5,
{
}

/// Quiet mode suppresses the detail block and changes nothing else: the
/// store transition and the filesystem effects of a save are functions
/// of the store, name, blob and record alone — they take no quiet flag —
/// while the quiet detail block is empty and the loud one is the full
/// block.
pub proof fn lemma_quiet_mode_output_only(record: MetadataView)
    ensures
        save_notices(record, true) == Seq::<NoticeView>::empty(),
        save_notices(record, false) == detail_notices(record, true),
{
}

} // verus!
