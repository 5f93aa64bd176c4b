//! Generation tracking and garbage collection. A generation is a symlink in
//! the GC directory whose target is a build output: it is live when the
//! target still exists and dangling when the target is already gone. The
//! scan classifies directory entries handed in by the caller; the live
//! target set is what backend collection must protect.

use vstd::prelude::*;

use crate::strutil;

verus! {

/// One entry of the GC directory as observed by a scan: whether it is a
/// symlink, whether its target still exists, the canonical target path, and
/// the entry's own path.
pub struct GenerationEntry {
    pub is_symlink: bool,
    pub target_exists: bool,
    pub target: String,
    pub path: String,
}

/// A generation is live when its symlink target still exists.
pub open spec fn is_live(e: GenerationEntry) -> bool {
    e.is_symlink && e.target_exists
}

/// A generation is dangling when its symlink target no longer exists.
pub open spec fn is_dangling(e: GenerationEntry) -> bool {
    e.is_symlink && !e.target_exists
}

/// The canonical targets of the live generations, in scan order.
pub open spec fn live_target_views(entries: Seq<GenerationEntry>) -> Seq<Seq<char>> {
    entries.filter(|e: GenerationEntry| is_live(e)).map_values(|e: GenerationEntry| e.target@)
}

/// The paths of the dangling generations, in scan order.
pub open spec fn dangling_path_views(entries: Seq<GenerationEntry>) -> Seq<Seq<char>> {
    entries.filter(|e: GenerationEntry| is_dangling(e)).map_values(|e: GenerationEntry| e.path@)
}

/// What a scan of the GC directory yields: the live targets to protect and
/// the dangling symlinks to delete. Entries that are not symlinks are
/// ignored.
pub struct GcScan {
    pub live_targets: Vec<String>,
    pub dangling_paths: Vec<String>,
}

/// The report of a whole collection run.
pub struct GcReport {
    /// How many live generations the first scan found.
    pub scanned_live: usize,
    /// How many dangling generations were removed from tracking.
    pub removed_dangling: usize,
    /// How many previously live generations are gone after collection.
    pub removed_live: usize,
}

/// Classifies the scanned entries of the GC directory: every symlink whose
/// target exists contributes that target to the live set, every symlink
/// whose target is gone is recorded as dangling, and anything that is not a
/// symlink is ignored.
pub fn classify_generations(entries: &Vec<GenerationEntry>) -> (r: GcScan)
    ensures
        r.live_targets@.map_values(|s: String| s@) == live_target_views(entries@),
        r.dangling_paths@.map_values(|s: String| s@) == dangling_path_views(entries@),
{
    let mut live: Vec<String> = Vec::new();
    let mut dangling: Vec<String> = Vec::new();
    let mut i: usize = 0;
    proof {
        assert(entries@.subrange(0, 0) =~= Seq::<GenerationEntry>::empty());
        reveal(Seq::filter);
        assert(live@.map_values(|s: String| s@) =~= live_target_views(entries@.subrange(0, 0)));
        assert(dangling@.map_values(|s: String| s@) =~= dangling_path_views(
            entries@.subrange(0, 0),
        ));
    }
    while i < entries.len()
        invariant
            i <= entries@.len(),
            live@.map_values(|s: String| s@) == live_target_views(entries@.subrange(0, i as int)),
            dangling@.map_values(|s: String| s@) == dangling_path_views(
                entries@.subrange(0, i as int),
            ),
        decreases entries@.len() - i,
    {
        let ghost prefix = entries@.subrange(0, i as int);
        let ghost e = entries@[i as int];
        let ghost live_prev = live@;
        let ghost dangling_prev = dangling@;
        if entries[i].is_symlink {
            if entries[i].target_exists {
                live.push(entries[i].target.clone());
            } else {
                dangling.push(entries[i].path.clone());
            }
        }
        proof {
            assert(entries@.subrange(0, i + 1) =~= prefix.push(e));
            strutil::lemma_filter_push(prefix, |x: GenerationEntry| is_live(x), e);
            strutil::lemma_filter_push(prefix, |x: GenerationEntry| is_dangling(x), e);
            if is_live(e) {
                assert(live@ =~= live_prev.push(live@.last()));
                assert(live@.map_values(|s: String| s@) =~= live_prev.map_values(
                    |s: String| s@,
                ).push(e.target@));
                assert(live_target_views(prefix.push(e)) =~= live_target_views(prefix).push(
                    e.target@,
                ));
            } else {
                assert(live_target_views(prefix.push(e)) =~= live_target_views(prefix));
            }
            if is_dangling(e) {
                assert(dangling@ =~= dangling_prev.push(dangling@.last()));
                assert(dangling@.map_values(|s: String| s@) =~= dangling_prev.map_values(
                    |s: String| s@,
                ).push(e.path@));
                assert(dangling_path_views(prefix.push(e)) =~= dangling_path_views(prefix).push(
                    e.path@,
                ));
            } else {
                assert(dangling_path_views(prefix.push(e)) =~= dangling_path_views(prefix));
            }
        }
        i = i + 1;
    }
    proof {
        assert(entries@.subrange(0, entries@.len() as int) =~= entries@);
    }
    GcScan { live_targets: live, dangling_paths: dangling }
}

/// GC safety: every symlink whose target exists has that target in the live
/// set handed to backend collection, so collection must not delete it; and
/// every symlink whose target is gone is counted as dangling.
pub proof fn lemma_gc_safety(entries: Seq<GenerationEntry>, i: int)
    requires
        0 <= i < entries.len(),
        entries[i].is_symlink,
    ensures
        entries[i].target_exists ==> live_target_views(entries).contains(entries[i].target@),
        !entries[i].target_exists ==> dangling_path_views(entries).contains(entries[i].path@),
{
    let live_pred = |x: GenerationEntry| is_live(x);
    let dangling_pred = |x: GenerationEntry| is_dangling(x);
    if entries[i].target_exists {
        entries.lemma_filter_contains(live_pred, i);
        let filtered = entries.filter(live_pred);
        let j = choose|j: int| 0 <= j < filtered.len() && filtered[j] == entries[i];
        assert(filtered.map_values(|e: GenerationEntry| e.target@)[j] == entries[i].target@);
    } else {
        entries.lemma_filter_contains(dangling_pred, i);
        let filtered = entries.filter(dangling_pred);
        let j = choose|j: int| 0 <= j < filtered.len() && filtered[j] == entries[i];
        assert(filtered.map_values(|e: GenerationEntry| e.path@)[j] == entries[i].path@);
    }
}

/// The report of a collection run: the first scan found `live_before` live
/// and `dangling` dangling generations; a second scan after backend
/// collection found `live_after` live ones. The difference is what the
/// collection removed.
pub fn gc_report(live_before: usize, dangling: usize, live_after: usize) -> (r: GcReport)
    requires
        live_after <= live_before,
    ensures
        r.scanned_live == live_before,
        r.removed_dangling == dangling,
        r.removed_live == live_before - live_after,
{
    GcReport {
        scanned_live: live_before,
        removed_dangling: dangling,
        removed_live: live_before - live_after,
    }
}

} // verus!
