use vstd::prelude::*;

use crate::content::{after_event, after_resolve, needs_rebuild, CacheModel};
use crate::geometry::Size;
use crate::shell::{merged, ShellView};

verus! {

/// The cache after `n` resolves in a row against `size`.
pub open spec fn resolve_repeated(m: CacheModel, size: Size, n: nat) -> CacheModel
    decreases n,
{
    if n == 0 {
        m
    } else {
        after_resolve(resolve_repeated(m, size, (n - 1) as nat), size)
    }
}

/// Resolving any number of times in a row against one size runs the builder
/// at most once: once if the first resolve needs a rebuild, never if it does
/// not. Afterwards the cache holds a layout for that size.
pub proof fn lemma_repeated_resolve_builds_at_most_once(m: CacheModel, size: Size, n: nat)
    requires
        n >= 1,
    ensures
        resolve_repeated(m, size, n).builds == m.builds + if needs_rebuild(m, size) {
            1nat
        } else {
            0nat
        },
        resolve_repeated(m, size, n).size == size,
        resolve_repeated(m, size, n).has_layout,
        resolve_repeated(m, size, n).initialized,
    decreases n,
{
    if n > 1 {
        lemma_repeated_resolve_builds_at_most_once(m, size, (n - 1) as nat);
        assert(!needs_rebuild(resolve_repeated(m, size, (n - 1) as nat), size));
    } else {
        assert(resolve_repeated(m, size, 0) == m);
    }
}

/// Along any run of successive resolves against one size (each state being
/// what the resolve before it left, as [`crate::content::Content::resolve`]
/// states), the builder runs at most once, in the first resolve: every
/// later resolve keeps the build count. Over the whole run it rises by one
/// exactly when the first resolve needs a rebuild, as on first use.
pub proof fn lemma_resolve_run_builds_at_most_once(states: Seq<CacheModel>, size: Size)
    requires
        states.len() >= 2,
        forall|i: int|
            0 < i < states.len() ==> #[trigger] states[i] == after_resolve(states[i - 1], size),
    ensures
        forall|i: int| 1 <= i < states.len() ==> (#[trigger] states[i]).initialized && states[i].size
            == size,
        forall|i: int|
            2 <= i < states.len() ==> #[trigger] states[i].builds == states[i - 1].builds,
        states.last().builds == states[0].builds + if needs_rebuild(states[0], size) {
            1nat
        } else {
            0nat
        },
        !states[0].initialized ==> states.last().builds == states[0].builds + 1,
    decreases states.len(),
{
    if states.len() > 2 {
        let prefix = states.drop_last();
        assert forall|i: int| 0 < i < prefix.len() implies #[trigger] prefix[i] == after_resolve(
            prefix[i - 1],
            size,
        ) by {
            assert(states[i] == after_resolve(states[i - 1], size));
        }
        lemma_resolve_run_builds_at_most_once(prefix, size);
        let n = states.len() - 1;
        assert(states[n] == after_resolve(states[n - 1], size));
        assert(states[n - 1] == prefix[n - 1]);
        assert(prefix[n - 1].initialized && prefix[n - 1].size == size);
        assert forall|i: int| 2 <= i < states.len() implies #[trigger] states[i].builds
            == states[i - 1].builds by {
            if i < n {
                assert(prefix[i].builds == prefix[i - 1].builds);
            }
        }
        assert forall|i: int| 1 <= i < states.len() implies (#[trigger] states[i]).initialized
            && states[i].size == size by {
            if i < n {
                assert(prefix[i].initialized);
            }
        }
    } else {
        assert(states[1] == after_resolve(states[0], size));
    }
}

/// On first use the builder runs exactly once over any number of resolves
/// against one size.
pub proof fn lemma_first_use_builds_once(m: CacheModel, size: Size, n: nat)
    requires
        n >= 1,
        !m.initialized,
    ensures
        resolve_repeated(m, size, n).builds == m.builds + 1,
{
    lemma_repeated_resolve_builds_at_most_once(m, size, n);
}

/// Resolving against a pristine runtime state rebuilds and reconciles, even
/// when the size equals the one cached (the zero size of a fresh cache
/// included).
pub proof fn lemma_pristine_resolve_rebuilds(m: CacheModel, size: Size)
    requires
        !m.initialized,
    ensures
        after_resolve(m, size).builds == m.builds + 1,
        after_resolve(m, size).initialized,
        after_resolve(m, size).size == size,
        after_resolve(m, size).has_layout,
{
}

/// After a resolve against `s1`, a resolve against a different `s2` runs the
/// builder exactly once more and lays the new subtree out for `s2`.
pub proof fn lemma_size_change_rebuilds_once(m: CacheModel, s1: Size, s2: Size)
    requires
        s1 != s2,
    ensures
        after_resolve(after_resolve(m, s1), s2).builds == after_resolve(m, s1).builds + 1,
        after_resolve(after_resolve(m, s1), s2).size == s2,
        after_resolve(after_resolve(m, s1), s2).has_layout,
{
}

/// A layout-invalidation signal raised during an event drops the cached
/// layout and leaves the subtree as the resolve left it: no further build.
pub proof fn lemma_invalidation_keeps_subtree(m: CacheModel, size: Size)
    ensures
        !after_event(m, size, true).has_layout,
        after_event(m, size, true).builds == after_resolve(m, size).builds,
        after_event(m, size, true).size == after_resolve(m, size).size,
        after_event(m, size, false) == after_resolve(m, size),
{
}

/// The messages an inner dispatch emitted follow the outer ones after the
/// merge, each pair in the order they were emitted.
pub proof fn lemma_merge_keeps_order<M>(outer: ShellView<M>, inner: ShellView<M>)
    ensures
        merged(outer, inner).messages.len() == outer.messages.len() + inner.messages.len(),
        merged(outer, inner).messages.subrange(0, outer.messages.len() as int) == outer.messages,
        forall|i: int, j: int|
            #![trigger inner.messages[i], inner.messages[j]]
            0 <= i < j < inner.messages.len() ==> merged(outer, inner).messages[outer.messages.len()
                + i] == inner.messages[i] && merged(outer, inner).messages[outer.messages.len() + j]
                == inner.messages[j] && outer.messages.len() + i < outer.messages.len() + j,
{
    assert(merged(outer, inner).messages.subrange(0, outer.messages.len() as int)
        =~= outer.messages);
}

} // verus!
