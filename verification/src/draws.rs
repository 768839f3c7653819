//! Shared shape of per-entity draw recording: every lighting variant
//! walks the cached entities and emits a block of draw calls per entity.

use vstd::prelude::*;

use crate::cache::CachedEntity;
use crate::gpu::DrawCall;

verus! {

/// The concatenation of `f`'s draw blocks over a list of entities, in
/// draw order.
pub open spec fn flat_draws(
    es: Seq<CachedEntity>,
    f: spec_fn(CachedEntity) -> Seq<DrawCall>,
) -> Seq<DrawCall>
    decreases es.len(),
{
    if es.len() == 0 {
        Seq::empty()
    } else {
        f(es[0]) + flat_draws(es.drop_first(), f)
    }
}

/// Extending the entity prefix by one appends exactly that entity's
/// block.
pub proof fn lemma_flat_draws_take_succ(
    es: Seq<CachedEntity>,
    f: spec_fn(CachedEntity) -> Seq<DrawCall>,
    i: int,
)
    requires
        0 <= i < es.len(),
    ensures
        flat_draws(es.take(i + 1), f) == flat_draws(es.take(i), f) + f(es[i]),
    decreases i,
{
    let a = es.take(i + 1);
    assert(a.len() == i + 1);
    assert(a[0] == es[0]);
    if i == 0 {
        assert(a.drop_first() =~= Seq::<CachedEntity>::empty());
        assert(es.take(0) =~= Seq::<CachedEntity>::empty());
        assert(flat_draws(a.drop_first(), f) =~= Seq::<DrawCall>::empty());
        assert(flat_draws(es.take(0), f) =~= Seq::<DrawCall>::empty());
        assert(flat_draws(a, f) =~= flat_draws(es.take(0), f) + f(es[0]));
    } else {
        lemma_flat_draws_take_succ(es.drop_first(), f, i - 1);
        assert(a.drop_first() =~= es.drop_first().take(i));
        assert(es.take(i).len() == i);
        assert(es.take(i)[0] == es[0]);
        assert(es.take(i).drop_first() =~= es.drop_first().take(i - 1));
        assert(es.drop_first()[i - 1] == es[i]);
        assert(flat_draws(a, f) == f(es[0]) + flat_draws(es.drop_first().take(i), f));
        assert(flat_draws(es.take(i), f) == f(es[0]) + flat_draws(es.drop_first().take(i - 1), f));
        assert(flat_draws(a, f) =~= flat_draws(es.take(i), f) + f(es[i]));
    }
}

} // verus!
