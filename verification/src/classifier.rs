//! Classification of a native flag word into logical change kinds.
//!
//! The native facility may merge several changes to one path into one event,
//! so the five rules are tested one by one and every rule that matches
//! contributes a kind, in the order of the rules.

use vstd::prelude::*;
use crate::flags::{
    EVENT_CLASSIFIED, EVENT_ITEM_CREATED, EVENT_ITEM_INODE_META_MOD, EVENT_ITEM_MODIFIED,
    EVENT_ITEM_REMOVED, EVENT_ITEM_RENAMED, EVENT_MUST_SCAN_SUBDIRS,
};
use crate::kind::Kind;

verus! {

/// The creation bit is set.
pub open spec fn is_created(flags: u32) -> bool {
    flags & EVENT_ITEM_CREATED != 0
}

/// The removal bit is set.
pub open spec fn is_removed(flags: u32) -> bool {
    flags & EVENT_ITEM_REMOVED != 0
}

/// The modification bit or the metadata-change bit is set.
pub open spec fn is_modified(flags: u32) -> bool {
    flags & (EVENT_ITEM_MODIFIED | EVENT_ITEM_INODE_META_MOD) != 0
}

/// The must-rescan bit is set.
pub open spec fn must_rescan(flags: u32) -> bool {
    flags & EVENT_MUST_SCAN_SUBDIRS != 0
}

/// The rename bit is set.
pub open spec fn is_renamed(flags: u32) -> bool {
    flags & EVENT_ITEM_RENAMED != 0
}

/// What one rule contributes: its kind if it fires, nothing otherwise.
pub open spec fn emitted(fires: bool, kind: Kind) -> Seq<Kind> {
    if fires {
        seq![kind]
    } else {
        Seq::empty()
    }
}

/// The kind that a rename stands for: the path that still exists is where
/// the item went, the path that is gone is where it came from.
pub open spec fn rename_kind(exists: bool) -> Kind {
    if exists {
        Kind::CREATE
    } else {
        Kind::DELETE
    }
}

/// The kinds of a flag word: what the five rules contribute, in their order.
/// `exists` says whether the event's path is there now; it matters to the
/// rename rule only.
pub open spec fn classification(flags: u32, exists: bool) -> Seq<Kind> {
    emitted(is_created(flags), Kind::CREATE) + emitted(is_removed(flags), Kind::DELETE) + emitted(
        is_modified(flags),
        Kind::MODIFY,
    ) + emitted(must_rescan(flags), Kind::OVERFLOW) + emitted(
        is_renamed(flags),
        rename_kind(exists),
    )
}

/// Whether classifying this flag word takes a look at the disk.
pub fn needs_probe(flags: u32) -> (needed: bool)
    ensures
        needed == is_renamed(flags),
{
    flags & EVENT_ITEM_RENAMED != 0
}

/// Classifies a flag word, given whether the event's path exists now.
pub fn classify(flags: u32, exists: bool) -> (kinds: Vec<Kind>)
    ensures
        kinds@ == classification(flags, exists),
{
    let mut kinds: Vec<Kind> = Vec::new();
    if flags & EVENT_ITEM_CREATED != 0 {
        kinds.push(Kind::CREATE);
    }
    if flags & EVENT_ITEM_REMOVED != 0 {
        kinds.push(Kind::DELETE);
    }
    if flags & (EVENT_ITEM_MODIFIED | EVENT_ITEM_INODE_META_MOD) != 0 {
        kinds.push(Kind::MODIFY);
    }
    if flags & EVENT_MUST_SCAN_SUBDIRS != 0 {
        kinds.push(Kind::OVERFLOW);
    }
    if flags & EVENT_ITEM_RENAMED != 0 {
        if exists {
            kinds.push(Kind::CREATE);
        } else {
            kinds.push(Kind::DELETE);
        }
    }
    kinds
}

/// Classifies a flag word, asking `probe` whether `path` exists. The probe is
/// called once if the rename bit is set and not at all otherwise.
pub fn classify_with_probe<P: Fn(&String) -> bool>(flags: u32, path: &String, probe: P) -> (kinds:
    Vec<Kind>)
    requires
        is_renamed(flags) ==> call_requires(probe, (path,)),
    ensures
        !is_renamed(flags) ==> kinds@ == classification(flags, false),
        is_renamed(flags) ==> exists|answer: bool|
            call_ensures(probe, (path,), answer) && kinds@ == classification(flags, answer),
{
    if needs_probe(flags) {
        let answer = probe(path);
        classify(flags, answer)
    } else {
        classify(flags, false)
    }
}

/// No word yields more than five kinds, one per rule that fires.
pub proof fn lemma_one_kind_per_rule(flags: u32, exists: bool)
    ensures
        classification(flags, exists).len() == (if is_created(flags) {
            1int
        } else {
            0
        }) + (if is_removed(flags) {
            1int
        } else {
            0
        }) + (if is_modified(flags) {
            1int
        } else {
            0
        }) + (if must_rescan(flags) {
            1int
        } else {
            0
        }) + (if is_renamed(flags) {
            1int
        } else {
            0
        }),
        classification(flags, exists).len() <= 5,
{
}

/// A word with the creation bit and a modification bit set, and none of the
/// other classified bits, yields `CREATE` and then `MODIFY`.
pub proof fn lemma_created_and_modified(flags: u32, exists: bool)
    requires
        is_created(flags),
        is_modified(flags),
        !is_removed(flags),
        !must_rescan(flags),
        !is_renamed(flags),
    ensures
        classification(flags, exists) == seq![Kind::CREATE, Kind::MODIFY],
{
    assert(classification(flags, exists) =~= seq![Kind::CREATE, Kind::MODIFY]);
}

/// Whatever else a word holds, a creation is reported first, and a
/// modification is reported after it (with only a removal between them).
pub proof fn lemma_create_precedes_modify(flags: u32, exists: bool)
    requires
        is_created(flags),
        is_modified(flags),
    ensures
        classification(flags, exists)[0] == Kind::CREATE,
        classification(flags, exists)[if is_removed(flags) {
            2int
        } else {
            1
        }] == Kind::MODIFY,
{
}

/// A word with the rename bit yields, as its last kind, `CREATE` if the path
/// exists and `DELETE` if it does not; the kinds before it do not depend on
/// the probe.
pub proof fn lemma_rename_resolution(flags: u32)
    requires
        is_renamed(flags),
    ensures
        classification(flags, true).last() == Kind::CREATE,
        classification(flags, false).last() == Kind::DELETE,
        classification(flags, true).drop_last() == classification(flags, false).drop_last(),
{
    assert(classification(flags, true).drop_last() =~= classification(flags, false).drop_last());
}

/// A word with the rename bit alone yields exactly `CREATE` if the path
/// exists and exactly `DELETE` if it does not.
pub proof fn lemma_rename_alone(flags: u32)
    requires
        is_renamed(flags),
        !is_created(flags),
        !is_removed(flags),
        !is_modified(flags),
        !must_rescan(flags),
    ensures
        classification(flags, true) == seq![Kind::CREATE],
        classification(flags, false) == seq![Kind::DELETE],
{
    assert(classification(flags, true) =~= seq![Kind::CREATE]);
    assert(classification(flags, false) =~= seq![Kind::DELETE]);
}

/// Without the rename bit the probe's answer changes nothing.
pub proof fn lemma_probe_unused_without_rename(flags: u32)
    requires
        !is_renamed(flags),
    ensures
        classification(flags, true) == classification(flags, false),
{
}

/// A word with the must-rescan bit, and none of the other classified bits,
/// yields exactly `OVERFLOW`.
pub proof fn lemma_rescan_alone(flags: u32, exists: bool)
    requires
        must_rescan(flags),
        !is_created(flags),
        !is_removed(flags),
        !is_modified(flags),
        !is_renamed(flags),
    ensures
        classification(flags, exists) == seq![Kind::OVERFLOW],
{
    assert(classification(flags, exists) =~= seq![Kind::OVERFLOW]);
}

/// A word that is one of the six classified bits fires the rule of that bit
/// and no other.
pub proof fn lemma_single_bits(exists: bool)
    ensures
        classification(EVENT_ITEM_CREATED, exists) == seq![Kind::CREATE],
        classification(EVENT_ITEM_REMOVED, exists) == seq![Kind::DELETE],
        classification(EVENT_ITEM_MODIFIED, exists) == seq![Kind::MODIFY],
        classification(EVENT_ITEM_INODE_META_MOD, exists) == seq![Kind::MODIFY],
        classification(EVENT_MUST_SCAN_SUBDIRS, exists) == seq![Kind::OVERFLOW],
        classification(EVENT_ITEM_RENAMED, exists) == seq![rename_kind(exists)],
        classification(0, exists) == Seq::<Kind>::empty(),
{
    assert(0x100u32 & 0x100u32 != 0 && 0x100u32 & 0x200u32 == 0 && 0x100u32 & (0x1000u32
        | 0x400u32) == 0 && 0x100u32 & 0x1u32 == 0 && 0x100u32 & 0x800u32 == 0) by (bit_vector);
    assert(0x200u32 & 0x100u32 == 0 && 0x200u32 & 0x200u32 != 0 && 0x200u32 & (0x1000u32
        | 0x400u32) == 0 && 0x200u32 & 0x1u32 == 0 && 0x200u32 & 0x800u32 == 0) by (bit_vector);
    assert(0x1000u32 & 0x100u32 == 0 && 0x1000u32 & 0x200u32 == 0 && 0x1000u32 & (0x1000u32
        | 0x400u32) != 0 && 0x1000u32 & 0x1u32 == 0 && 0x1000u32 & 0x800u32 == 0)
        by (bit_vector);
    assert(0x400u32 & 0x100u32 == 0 && 0x400u32 & 0x200u32 == 0 && 0x400u32 & (0x1000u32
        | 0x400u32) != 0 && 0x400u32 & 0x1u32 == 0 && 0x400u32 & 0x800u32 == 0) by (bit_vector);
    assert(0x1u32 & 0x100u32 == 0 && 0x1u32 & 0x200u32 == 0 && 0x1u32 & (0x1000u32 | 0x400u32)
        == 0 && 0x1u32 & 0x1u32 != 0 && 0x1u32 & 0x800u32 == 0) by (bit_vector);
    assert(0x800u32 & 0x100u32 == 0 && 0x800u32 & 0x200u32 == 0 && 0x800u32 & (0x1000u32
        | 0x400u32) == 0 && 0x800u32 & 0x1u32 == 0 && 0x800u32 & 0x800u32 != 0) by (bit_vector);
    assert(0u32 & 0x100u32 == 0 && 0u32 & 0x200u32 == 0 && 0u32 & (0x1000u32 | 0x400u32) == 0
        && 0u32 & 0x1u32 == 0 && 0u32 & 0x800u32 == 0) by (bit_vector);
    assert(classification(EVENT_ITEM_CREATED, exists) =~= seq![Kind::CREATE]);
    assert(classification(EVENT_ITEM_REMOVED, exists) =~= seq![Kind::DELETE]);
    assert(classification(EVENT_ITEM_MODIFIED, exists) =~= seq![Kind::MODIFY]);
    assert(classification(EVENT_ITEM_INODE_META_MOD, exists) =~= seq![Kind::MODIFY]);
    assert(classification(EVENT_MUST_SCAN_SUBDIRS, exists) =~= seq![Kind::OVERFLOW]);
    assert(classification(EVENT_ITEM_RENAMED, exists) =~= seq![rename_kind(exists)]);
    assert(classification(0, exists) =~= Seq::<Kind>::empty());
}

/// Setting several classified bits in one word fires exactly the rules of
/// those bits: the word with the creation bit and the modification bit
/// yields `CREATE` and then `MODIFY`, and the word with all six bits yields
/// all five kinds in the order of the rules.
pub proof fn lemma_coalesced_words(exists: bool)
    ensures
        classification(EVENT_ITEM_CREATED | EVENT_ITEM_MODIFIED, exists) == seq![
            Kind::CREATE,
            Kind::MODIFY,
        ],
        classification(EVENT_CLASSIFIED, exists) == seq![
            Kind::CREATE,
            Kind::DELETE,
            Kind::MODIFY,
            Kind::OVERFLOW,
            rename_kind(exists),
        ],
{
    let both = EVENT_ITEM_CREATED | EVENT_ITEM_MODIFIED;
    assert((0x100u32 | 0x1000u32) & 0x100u32 != 0 && (0x100u32 | 0x1000u32) & 0x200u32 == 0 && (
    0x100u32 | 0x1000u32) & (0x1000u32 | 0x400u32) != 0 && (0x100u32 | 0x1000u32) & 0x1u32 == 0
        && (0x100u32 | 0x1000u32) & 0x800u32 == 0) by (bit_vector);
    assert(0x1F01u32 & 0x100u32 != 0 && 0x1F01u32 & 0x200u32 != 0 && 0x1F01u32 & (0x1000u32
        | 0x400u32) != 0 && 0x1F01u32 & 0x1u32 != 0 && 0x1F01u32 & 0x800u32 != 0)
        by (bit_vector);
    assert(classification(both, exists) =~= seq![Kind::CREATE, Kind::MODIFY]);
    assert(classification(EVENT_CLASSIFIED, exists) =~= seq![
        Kind::CREATE,
        Kind::DELETE,
        Kind::MODIFY,
        Kind::OVERFLOW,
        rename_kind(exists),
    ]);
}

/// Bits that no rule reads change nothing: two words that agree on the
/// classified bits have the same kinds.
pub proof fn lemma_unclassified_bits_ignored(a: u32, b: u32, exists: bool)
    requires
        a & EVENT_CLASSIFIED == b & EVENT_CLASSIFIED,
    ensures
        classification(a, exists) == classification(b, exists),
{
    assert(a & 0x100u32 == b & 0x100u32 && a & 0x200u32 == b & 0x200u32 && a & (0x1000u32
        | 0x400u32) == b & (0x1000u32 | 0x400u32) && a & 0x1u32 == b & 0x1u32 && a & 0x800u32 == b
        & 0x800u32) by (bit_vector)
        requires
            a & 0x1F01u32 == b & 0x1F01u32,
    ;
}

} // verus!
