//! Laws that relate the operations of `DoubleBuffered` to one another.
use vstd::prelude::*;

use crate::DoubleBuffered;

verus! {

/// One step of a buffer's life, from `prev` to `next`. A publishing step is
/// what `update` promises: the read side becomes a clone of the write side,
/// which stays as it was. Any other step stages a change, as `write`,
/// `deref_mut` and `index_mut` promise: the read side stays as it was.
pub open spec fn steps_to<T: Clone>(
    prev: DoubleBuffered<T>,
    next: DoubleBuffered<T>,
    publishes: bool,
) -> bool {
    if publishes {
        cloned(prev.write_side(), next.read_side()) && next.write_side() == prev.write_side()
    } else {
        next.read_side() == prev.read_side()
    }
}

/// Every clone of `v` is equal to `v`: cloning it gives a faithful copy.
pub open spec fn clones_faithfully<T: Clone>(v: T) -> bool {
    forall|c: T| cloned(v, c) ==> c == v
}

/// What `new(v)` promises of the buffer `b` it returns: both sides are
/// clones of `v`.
pub open spec fn made_from<T: Clone>(v: T, b: DoubleBuffered<T>) -> bool {
    cloned(v, b.read_side()) && cloned(v, b.write_side())
}

/// A buffer just made from `v`, and not touched since, gives `v` back from
/// either side (through `read`, `unbuffer_read` or `unbuffer_write`) where
/// `v` clones faithfully, and a clone of `v` in any case.
pub proof fn lemma_new_gives_back_value<T: Clone>(v: T, b: DoubleBuffered<T>)
    requires
        made_from(v, b),
    ensures
        cloned(v, b.read_side()),
        cloned(v, b.write_side()),
        clones_faithfully(v) ==> b.read_side() == v && b.write_side() == v,
{
}

/// `run[s + 1]` follows from `run[s]` by one step, which publishes exactly
/// where `publishes[s]` holds.
pub open spec fn is_run<T: Clone>(run: Seq<DoubleBuffered<T>>, publishes: Seq<bool>) -> bool {
    &&& run.len() == publishes.len() + 1
    &&& forall|s: int|
        0 <= s < publishes.len() ==> steps_to(run[s], run[s + 1], #[trigger] publishes[s])
}

/// Staging is invisible: between two states of a run with no publishing
/// step in between, the read side does not change, however much was staged.
pub proof fn lemma_staging_is_invisible<T: Clone>(
    run: Seq<DoubleBuffered<T>>,
    publishes: Seq<bool>,
    i: int,
    j: int,
)
    requires
        is_run(run, publishes),
        0 <= i <= j < run.len(),
        forall|s: int| i <= s < j ==> !#[trigger] publishes[s],
    ensures
        run[j].read_side() == run[i].read_side(),
    decreases j - i,
{
    if i < j {
        lemma_staging_is_invisible(run, publishes, i, j - 1);
        assert(!publishes[j - 1]);
        assert(steps_to(run[j - 1], run[j], publishes[j - 1]));
    }
}

/// After a publishing step, and until the next one, the read side is a
/// clone of the write side as it was left just before that publish, and is
/// equal to it where that value clones faithfully.
pub proof fn lemma_read_side_is_last_published<T: Clone>(
    run: Seq<DoubleBuffered<T>>,
    publishes: Seq<bool>,
    k: int,
    j: int,
)
    requires
        is_run(run, publishes),
        0 <= k < j < run.len(),
        publishes[k],
        forall|s: int| k < s < j ==> !#[trigger] publishes[s],
    ensures
        cloned(run[k].write_side(), run[j].read_side()),
        clones_faithfully(run[k].write_side()) ==> run[j].read_side() == run[k].write_side(),
{
    assert(steps_to(run[k], run[k + 1], publishes[k]));
    lemma_staging_is_invisible(run, publishes, k + 1, j);
}

/// `upsert(v)` does what staging `v` through `write` and then calling
/// `update` does: if `staged` holds `v` on its write side and `published`
/// follows from it by a publish, both sides of `published` hold `v`, the
/// read side as a clone, which equals `v` where `v` clones faithfully.
pub proof fn lemma_upsert_is_write_then_update<T: Clone>(
    v: T,
    staged: DoubleBuffered<T>,
    published: DoubleBuffered<T>,
)
    requires
        staged.write_side() == v,
        steps_to(staged, published, true),
    ensures
        published.write_side() == v,
        cloned(v, published.read_side()),
        clones_faithfully(v) ==> published.read_side() == v,
{
}

/// Publishing twice with nothing staged in between leaves the buffer as the
/// first publish left it, where a clone of the write side equals it.
pub proof fn lemma_update_twice_is_update_once<T: Clone>(
    start: DoubleBuffered<T>,
    once: DoubleBuffered<T>,
    twice: DoubleBuffered<T>,
)
    requires
        steps_to(start, once, true),
        steps_to(once, twice, true),
        clones_faithfully(start.write_side()),
    ensures
        twice.read_side() == once.read_side(),
        twice.write_side() == once.write_side(),
{
}

} // verus!
