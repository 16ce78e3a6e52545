//! What holds of a particle over any number of updates.

use vstd::prelude::*;
use crate::config::Config;
use crate::fixed::difference;
use crate::particle::Particle;

verus! {

/// The particle after one update for each entry of `dts`, in order.
pub open spec fn after(p: Particle, dts: Seq<i64>, cfg: Config) -> Particle
    decreases dts.len(),
{
    if dts.len() == 0 {
        p
    } else {
        after(p, dts.drop_last(), cfg).stepped(dts.last(), cfg)
    }
}

/// No entry of `dts` is negative.
pub open spec fn forward(dts: Seq<i64>) -> bool {
    forall|i: int| 0 <= i < dts.len() ==> dts[i] >= 0
}

/// An update by a time step that is not negative leaves the particle on or
/// above the ground, whatever its height was.
pub proof fn lemma_step_keeps_above_ground(p: Particle, dt: i64, cfg: Config)
    requires
        dt >= 0,
    ensures
        p.stepped(dt, cfg).height >= 0,
{
}

/// An update by a time step that is not negative takes exactly that step from
/// the lifetime, as far as `i64` reaches: the lifetime does not grow, and it
/// shrinks where the step is positive and the difference can be stored.
pub proof fn lemma_step_ages(p: Particle, dt: i64, cfg: Config)
    requires
        dt >= 0,
    ensures
        p.stepped(dt, cfg).lifetime == difference(p.lifetime, dt),
        p.stepped(dt, cfg).lifetime <= p.lifetime,
        dt > 0 && p.lifetime - dt >= i64::MIN ==> p.stepped(dt, cfg).lifetime < p.lifetime,
{
}

/// An update of a dormant particle, by any time step, changes nothing but the
/// lifetime: the particle stays where it is, and stays dormant.
pub proof fn lemma_step_keeps_dormant(p: Particle, dt: i64, cfg: Config)
    requires
        p.dormant(),
    ensures
        p.stepped(dt, cfg).dormant(),
        p.stepped(dt, cfg).pos == p.pos,
        p.stepped(dt, cfg) == (Particle { lifetime: p.stepped(dt, cfg).lifetime, ..p }),
{
}

/// After every one of any number of updates by time steps that are not
/// negative, the particle is on or above the ground.
pub proof fn lemma_never_below_ground(p: Particle, dts: Seq<i64>, cfg: Config)
    requires
        forward(dts),
    ensures
        forall|k: int| 1 <= k <= dts.len() ==> (#[trigger] after(p, dts.take(k), cfg)).height >= 0,
{
    assert forall|k: int| 1 <= k <= dts.len() implies (#[trigger] after(
        p,
        dts.take(k),
        cfg,
    )).height >= 0 by {
        let head = dts.take(k);
        lemma_step_keeps_above_ground(after(p, head.drop_last(), cfg), head.last(), cfg);
    }
}

/// Over any number of updates by time steps that are not negative, the
/// lifetime does not grow.
pub proof fn lemma_lifetime_never_grows(p: Particle, dts: Seq<i64>, cfg: Config)
    requires
        forward(dts),
    ensures
        after(p, dts, cfg).lifetime <= p.lifetime,
    decreases dts.len(),
{
    if dts.len() > 0 {
        lemma_lifetime_never_grows(p, dts.drop_last(), cfg);
        lemma_step_ages(after(p, dts.drop_last(), cfg), dts.last(), cfg);
    }
}

/// Dormancy is final: a dormant particle stays dormant and in place over any
/// number of updates, by any time steps, and only its lifetime changes.
pub proof fn lemma_dormancy_is_final(p: Particle, dts: Seq<i64>, cfg: Config)
    requires
        p.dormant(),
    ensures
        after(p, dts, cfg).dormant(),
        after(p, dts, cfg) == (Particle { lifetime: after(p, dts, cfg).lifetime, ..p }),
    decreases dts.len(),
{
    if dts.len() > 0 {
        lemma_dormancy_is_final(p, dts.drop_last(), cfg);
        lemma_step_keeps_dormant(after(p, dts.drop_last(), cfg), dts.last(), cfg);
    }
}

} // verus!
