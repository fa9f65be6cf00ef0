//! Entity lifecycle: a pure filter run at the end of every tick. Goblins
//! whose health has reached zero and a demon whose remaining life has run
//! out are removed, immediately and unconditionally, and their handles are
//! reported so the host can despawn the matching engine entities.

use vstd::prelude::*;
use crate::entities::{DemonState, GoblinState};
use crate::math::{DT_MAX, sat_sub};

verus! {

/// The goblins that survive a reap: exactly those still alive, in order.
pub open spec fn kept_goblins(gs: Seq<GoblinState>) -> Seq<GoblinState>
    decreases gs.len(),
{
    if gs.len() == 0 {
        Seq::empty()
    } else if gs.last().alive() {
        kept_goblins(gs.drop_last()).push(gs.last())
    } else {
        kept_goblins(gs.drop_last())
    }
}

/// The handles a reap removes: those of the dead goblins, in order.
pub open spec fn reaped_ids(gs: Seq<GoblinState>) -> Seq<u64>
    decreases gs.len(),
{
    if gs.len() == 0 {
        Seq::empty()
    } else if gs.last().alive() {
        reaped_ids(gs.drop_last())
    } else {
        reaped_ids(gs.drop_last()).push(gs.last().id)
    }
}

/// Every survivor of a reap is alive and was present before it.
pub proof fn lemma_kept_elements(gs: Seq<GoblinState>)
    ensures
        forall|k: int|
            0 <= k < kept_goblins(gs).len() ==> (#[trigger] kept_goblins(gs)[k]).alive()
                && gs.contains(kept_goblins(gs)[k]),
    decreases gs.len(),
{
    if gs.len() > 0 {
        lemma_kept_elements(gs.drop_last());
        assert(forall|k: int|
            0 <= k < kept_goblins(gs.drop_last()).len() ==> gs.drop_last().contains(
                #[trigger] kept_goblins(gs.drop_last())[k],
            ));
        assert(forall|g: GoblinState| gs.drop_last().contains(g) ==> gs.contains(g));
        assert(gs.contains(gs.last()));
    }
}

/// A reap keeps goblin handles strictly ordered and below any bound they
/// were below: surviving handles stay unique.
pub proof fn lemma_kept_ids(gs: Seq<GoblinState>, bound: u64)
    requires
        forall|i: int, j: int| 0 <= i < j < gs.len() ==> gs[i].id < gs[j].id,
        forall|i: int| 0 <= i < gs.len() ==> (#[trigger] gs[i]).id < bound,
    ensures
        forall|i: int, j: int|
            0 <= i < j < kept_goblins(gs).len() ==> kept_goblins(gs)[i].id < kept_goblins(gs)[j].id,
        forall|i: int|
            0 <= i < kept_goblins(gs).len() ==> (#[trigger] kept_goblins(gs)[i]).id < bound,
    decreases gs.len(),
{
    if gs.len() > 0 {
        let d = gs.drop_last();
        lemma_kept_ids(d, bound);
        lemma_kept_elements(d);
        if gs.last().alive() {
            assert forall|k: int| 0 <= k < kept_goblins(d).len() implies kept_goblins(d)[k].id
                < gs.last().id by {
                let i = choose|i: int| 0 <= i < d.len() && d[i] == kept_goblins(d)[k];
                assert(gs[i] == d[i]);
            }
        }
    }
}

/// Law: reaping is idempotent. A second reap with no intervening damage
/// removes nothing and changes nothing.
pub proof fn lemma_reap_idempotent(gs: Seq<GoblinState>)
    ensures
        reaped_ids(kept_goblins(gs)) == Seq::<u64>::empty(),
        kept_goblins(kept_goblins(gs)) == kept_goblins(gs),
    decreases gs.len(),
{
    if gs.len() == 0 {
        assert(kept_goblins(gs) =~= Seq::<GoblinState>::empty());
    } else {
        lemma_reap_idempotent(gs.drop_last());
        let d = gs.drop_last();
        if gs.last().alive() {
            let k = kept_goblins(d).push(gs.last());
            assert(k.drop_last() =~= kept_goblins(d));
            assert(k.last() == gs.last());
            assert(reaped_ids(k) =~= Seq::<u64>::empty());
            assert(kept_goblins(k) =~= k);
        }
    }
}

/// Removes every dead goblin and returns their handles, in order.
pub fn reap_goblins(goblins: &mut Vec<GoblinState>) -> (removed: Vec<u64>)
    ensures
        final(goblins)@ == kept_goblins(old(goblins)@),
        removed@ == reaped_ids(old(goblins)@),
{
    let ghost gs0 = goblins@;
    let mut kept: Vec<GoblinState> = Vec::new();
    let mut removed: Vec<u64> = Vec::new();
    let mut i: usize = 0;
    while i < goblins.len()
        invariant
            i <= gs0.len(),
            goblins@ == gs0,
            kept@ == kept_goblins(gs0.take(i as int)),
            removed@ == reaped_ids(gs0.take(i as int)),
        decreases gs0.len() - i,
    {
        proof {
            assert(gs0.take(i + 1).drop_last() =~= gs0.take(i as int));
            assert(gs0.take(i + 1).last() == gs0[i as int]);
        }
        let g = goblins[i];
        if g.health > 0 {
            kept.push(g);
        } else {
            removed.push(g.id);
        }
        i = i + 1;
    }
    proof {
        assert(gs0.take(gs0.len() as int) =~= gs0);
    }
    *goblins = kept;
    removed
}

/// The demon's countdown: remaining life falls by the tick's delta,
/// clamping at zero.
pub open spec fn demon_after_tick(d: Option<DemonState>, dt: int) -> Option<DemonState> {
    match d {
        Option::None => Option::None,
        Option::Some(dem) => Option::Some(
            DemonState { life: sat_sub(dem.life as int, dt) as u64, ..dem },
        ),
    }
}

pub fn demon_tick(demon: &mut Option<DemonState>, dt: u64)
    requires
        dt <= DT_MAX,
    ensures
        *final(demon) == demon_after_tick(*old(demon), dt as int),
{
    match demon {
        Option::None => {},
        Option::Some(dem) => {
            dem.life = if dem.life >= dt {
                dem.life - dt
            } else {
                0
            };
        },
    }
}

/// Removes an expired demon; reports whether one was removed, so the host
/// can despawn the matching engine entity.
pub fn reap_demon(demon: &mut Option<DemonState>) -> (expired: bool)
    ensures
        expired == (*old(demon) matches Some(d) && d.life == 0),
        *final(demon) == (if expired {
            Option::<DemonState>::None
        } else {
            *old(demon)
        }),
{
    match demon {
        Option::None => false,
        Option::Some(dem) => {
            if dem.life == 0 {
                *demon = Option::None;
                true
            } else {
                false
            }
        },
    }
}

} // verus!
