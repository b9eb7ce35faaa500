use crate::align::{is_pow2, lemma_align_down_bounds, lemma_pow2_nonzero};
use crate::early::ArenaView;
use vstd::arithmetic::div_mod::lemma_fundamental_div_mod;
use vstd::arithmetic::mul::lemma_mul_is_commutative;
use vstd::arithmetic::power2::{lemma_pow2_pos, pow2};
use vstd::prelude::*;

verus! {

/// The state after the byte allocations `reqs` (pairs of size and alignment),
/// made in order.
pub open spec fn after_allocs(s: ArenaView, reqs: Seq<(nat, nat)>) -> ArenaView
    decreases reqs.len(),
{
    if reqs.len() == 0 {
        s
    } else {
        let last = reqs.last();
        after_allocs(s, reqs.drop_last()).after_alloc(last.0, last.1)
    }
}

/// Each of the byte allocations `reqs`, made in order, succeeds.
pub open spec fn allocs_succeed(s: ArenaView, reqs: Seq<(nat, nat)>) -> bool
    decreases reqs.len(),
{
    if reqs.len() == 0 {
        true
    } else {
        let last = reqs.last();
        let t = after_allocs(s, reqs.drop_last());
        &&& allocs_succeed(s, reqs.drop_last())
        &&& is_pow2(last.1)
        &&& t.count < usize::MAX
        &&& t.byte_fits(last.0, last.1)
    }
}

/// The state after `n` byte deallocations.
pub open spec fn after_deallocs(s: ArenaView, n: nat) -> ArenaView
    decreases n,
{
    if n == 0 {
        s
    } else {
        after_deallocs(s, (n - 1) as nat).after_dealloc()
    }
}

/// A successful byte allocation keeps the arena well formed and does not
/// move `b_pos` down.
pub proof fn lemma_alloc_keeps_wf(s: ArenaView, size: nat, align: nat)
    requires
        s.wf(),
        is_pow2(align),
        s.count < usize::MAX,
        s.byte_fits(size, align),
    ensures
        s.after_alloc(size, align).wf(),
        s.after_alloc(size, align).b_pos >= s.b_pos,
{
    lemma_pow2_nonzero(align);
}

/// A byte deallocation with an allocation outstanding keeps the arena well formed.
pub proof fn lemma_dealloc_keeps_wf(s: ArenaView)
    requires
        s.wf(),
        s.count > 0,
    ensures
        s.after_dealloc().wf(),
{
}

/// A successful page allocation keeps the arena well formed and does not
/// move `p_pos` up.
pub proof fn lemma_alloc_pages_keeps_wf(s: ArenaView, num_pages: nat, align_pow2: nat, page_size: nat)
    requires
        s.wf(),
        !s.page_invalid(num_pages, align_pow2, page_size),
        !s.page_collides(num_pages, align_pow2, page_size),
    ensures
        s.after_alloc_pages(num_pages, align_pow2, page_size).wf(),
        s.after_alloc_pages(num_pages, align_pow2, page_size).p_pos <= s.p_pos,
{
    let y = (s.p_pos - ArenaView::page_run(num_pages, page_size)) as nat;
    lemma_pow2_pos(align_pow2);
    lemma_align_down_bounds(y, pow2(align_pow2));
}

/// A run of successful byte allocations counts each one and moves only `b_pos`.
pub proof fn lemma_allocs_effect(s: ArenaView, reqs: Seq<(nat, nat)>)
    requires
        s.wf(),
        allocs_succeed(s, reqs),
    ensures
        after_allocs(s, reqs).wf(),
        after_allocs(s, reqs).count == s.count + reqs.len(),
        after_allocs(s, reqs).start == s.start,
        after_allocs(s, reqs).end == s.end,
        after_allocs(s, reqs).p_pos == s.p_pos,
    decreases reqs.len(),
{
    if reqs.len() > 0 {
        let last = reqs.last();
        lemma_allocs_effect(s, reqs.drop_last());
        lemma_alloc_keeps_wf(after_allocs(s, reqs.drop_last()), last.0, last.1);
    }
}

/// `n` byte deallocations, with at least `n` outstanding, take `n` off the
/// count and move only `b_pos`.
pub proof fn lemma_deallocs_effect(s: ArenaView, n: nat)
    requires
        s.wf(),
        n <= s.count,
    ensures
        after_deallocs(s, n).wf(),
        after_deallocs(s, n).count == s.count - n,
        after_deallocs(s, n).start == s.start,
        after_deallocs(s, n).end == s.end,
        after_deallocs(s, n).p_pos == s.p_pos,
    decreases n,
{
    if n > 0 {
        lemma_deallocs_effect(s, (n - 1) as nat);
        lemma_dealloc_keeps_wf(after_deallocs(s, (n - 1) as nat));
    }
}

/// Starting with no byte allocation outstanding, `n` successful byte
/// allocations followed by `n` deallocations leave the arena as it was:
/// `b_pos` is back at `start` and the count is zero. Deallocation does not
/// look at which allocation is freed, so the order of the frees is free.
pub proof fn lemma_cohort_release(s: ArenaView, reqs: Seq<(nat, nat)>)
    requires
        s.wf(),
        s.count == 0,
        allocs_succeed(s, reqs),
    ensures
        after_deallocs(after_allocs(s, reqs), reqs.len()) == s,
        after_deallocs(after_allocs(s, reqs), reqs.len()).b_pos == s.start,
        after_deallocs(after_allocs(s, reqs), reqs.len()).count == 0,
{
    lemma_allocs_effect(s, reqs);
    lemma_deallocs_effect(after_allocs(s, reqs), reqs.len());
}

/// When the region is a whole number of pages, the page count times the page
/// size is the byte count.
pub proof fn lemma_total_pages_exact(s: ArenaView, page_size: nat)
    requires
        page_size > 0,
        s.total_bytes() % page_size == 0,
    ensures
        s.total_pages(page_size) * page_size == s.total_bytes(),
{
    lemma_fundamental_div_mod(s.total_bytes() as int, page_size as int);
    lemma_mul_is_commutative(s.total_pages(page_size) as int, page_size as int);
}

} // verus!
