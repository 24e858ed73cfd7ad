//! The bits of the native facility that this crate reads or sets.
//!
//! The values are those of the FSEvents interface (`FSEventStreamEventFlags`
//! and `FSEventStreamCreateFlags`, both 32 bits wide).

use vstd::prelude::*;

verus! {

/// Event flag: so much changed below the path that it must be rescanned.
pub const EVENT_MUST_SCAN_SUBDIRS: u32 = 0x0000_0001;

/// Event flag: the item was created.
pub const EVENT_ITEM_CREATED: u32 = 0x0000_0100;

/// Event flag: the item was removed.
pub const EVENT_ITEM_REMOVED: u32 = 0x0000_0200;

/// Event flag: the item's inode metadata changed.
pub const EVENT_ITEM_INODE_META_MOD: u32 = 0x0000_0400;

/// Event flag: the item was renamed (either end of the rename).
pub const EVENT_ITEM_RENAMED: u32 = 0x0000_0800;

/// Event flag: the item's content changed.
pub const EVENT_ITEM_MODIFIED: u32 = 0x0000_1000;

/// All event bits that classification looks at.
pub const EVENT_CLASSIFIED: u32 = 0x0000_1F01;

/// Creation flag: deliver the first event of a burst without waiting.
pub const CREATE_NO_DEFER: u32 = 0x0000_0002;

/// Creation flag: report changes along the path to the watched root.
pub const CREATE_WATCH_ROOT: u32 = 0x0000_0004;

/// Creation flag: report changes per file, not per directory.
pub const CREATE_FILE_EVENTS: u32 = 0x0000_0010;

/// The creation flags of every subscription: no-defer, watch-root and
/// per-file events.
pub const SUBSCRIPTION_FLAGS: u32 = 0x0000_0016;

/// The window within which the native facility merges changes, in
/// milliseconds (0.15 seconds).
pub const LATENCY_MILLIS: u64 = 150;

/// The creation flags are the three bits named above, and the classified
/// event bits are the six event bits named above.
pub proof fn lemma_flag_words()
    ensures
        SUBSCRIPTION_FLAGS == CREATE_NO_DEFER | CREATE_WATCH_ROOT | CREATE_FILE_EVENTS,
        EVENT_CLASSIFIED == EVENT_MUST_SCAN_SUBDIRS | EVENT_ITEM_CREATED | EVENT_ITEM_REMOVED
            | EVENT_ITEM_INODE_META_MOD | EVENT_ITEM_RENAMED | EVENT_ITEM_MODIFIED,
{
    assert(0x16u32 == 0x2u32 | 0x4u32 | 0x10u32) by (bit_vector);
    assert(0x1F01u32 == 0x1u32 | 0x100u32 | 0x200u32 | 0x400u32 | 0x800u32 | 0x1000u32)
        by (bit_vector);
}

} // verus!
