//! Properties of the kernel that span several steps or several particles.

use vstd::prelude::*;
use crate::particle::{Particle, ParticleKind, Position};
use crate::physics::{
    SimConfig, floor_of, floor_in_range, gravity_spec, gravity_all, resolve_spec, pair_step, scan_row, scan_rows,
    collide_all, spawn_spec, tick_spec,
};

verus! {

/// Whether the horizontal offset of `f` from `s` lies in the band that pushes
/// `f` sideways, with `f` close enough above `s` to interact.
pub open spec fn in_push_band(f: Particle, s: Particle, cfg: SimConfig) -> bool {
    let dx = f.position.x - s.position.x;
    let adx = if dx < 0 { -dx } else { dx };
    &&& f.position.y - s.position.y <= cfg.footprint_size
    &&& cfg.overlap_threshold <= adx < cfg.footprint_size
}

/// Every particle is at or above `floor`.
pub open spec fn above_floor(ps: Seq<Particle>, floor: int) -> bool {
    forall|k: int| 0 <= k < ps.len() ==> (#[trigger] ps[k]).position.y >= floor
}

/// A property of particle sequences of length `n` that every single pair
/// check keeps also holds after a row of the scan.
proof fn lemma_row_keeps(
    inv: spec_fn(Seq<Particle>) -> bool,
    ps: Seq<Particle>,
    n: int,
    i: int,
    j: int,
    cfg: SimConfig,
)
    requires
        forall|q: Seq<Particle>, a: int, b: int|
            inv(q) && q.len() == n && 0 <= a < b < n ==> #[trigger] inv(pair_step(q, a, b, cfg)),
        inv(ps),
        ps.len() == n,
        0 <= i < j,
    ensures
        inv(scan_row(ps, n, i, j, cfg)),
        scan_row(ps, n, i, j, cfg).len() == n,
    decreases n - j,
{
    if j < n {
        lemma_row_keeps(inv, pair_step(ps, i, j, cfg), n, i, j + 1, cfg);
    }
}

proof fn lemma_rows_keep(inv: spec_fn(Seq<Particle>) -> bool, ps: Seq<Particle>, n: int, i: int, cfg: SimConfig)
    requires
        forall|q: Seq<Particle>, a: int, b: int|
            inv(q) && q.len() == n && 0 <= a < b < n ==> #[trigger] inv(pair_step(q, a, b, cfg)),
        inv(ps),
        ps.len() == n,
        0 <= i,
    ensures
        inv(scan_rows(ps, n, i, cfg)),
        scan_rows(ps, n, i, cfg).len() == n,
    decreases n - i,
{
    if i < n {
        lemma_row_keeps(inv, ps, n, i, i + 1, cfg);
        lemma_rows_keep(inv, scan_row(ps, n, i, i + 1, cfg), n, i + 1, cfg);
    }
}

/// A property that every single pair check keeps also holds after a whole
/// collision scan, which keeps the number of particles.
pub proof fn lemma_scan_keeps(inv: spec_fn(Seq<Particle>) -> bool, ps: Seq<Particle>, cfg: SimConfig)
    requires
        forall|q: Seq<Particle>, a: int, b: int|
            inv(q) && q.len() == ps.len() && 0 <= a < b < ps.len() ==> #[trigger] inv(pair_step(q, a, b, cfg)),
        inv(ps),
    ensures
        inv(collide_all(ps, cfg)),
        collide_all(ps, cfg).len() == ps.len(),
{
    lemma_rows_keep(inv, ps, ps.len() as int, 0, cfg);
}

/// One gravity step: a falling particle whose lookahead stays above the
/// floor drops by exactly the gravity constant; otherwise it lands exactly
/// on the floor and comes to rest. Its x never changes.
pub proof fn lemma_gravity_step(p: Particle, floor: i64, cfg: SimConfig)
    requires
        !p.rest_state,
        floor_in_range(floor),
    ensures
        gravity_spec(p, floor, cfg).position.x == p.position.x,
        gravity_spec(p, floor, cfg).id == p.id,
        p.position.y - cfg.footprint_size > floor ==> gravity_spec(p, floor, cfg).position.y
            == p.position.y - cfg.gravity && !gravity_spec(p, floor, cfg).rest_state,
        p.position.y - cfg.footprint_size <= floor ==> gravity_spec(p, floor, cfg).position.y == floor
            && gravity_spec(p, floor, cfg).rest_state,
{
}

/// A pair whose two particles are both at rest is left as it is.
pub proof fn lemma_resting_pair_untouched(ps: Seq<Particle>, i: int, j: int, cfg: SimConfig)
    requires
        0 <= i < j < ps.len(),
        ps[i].rest_state,
        ps[j].rest_state,
    ensures
        pair_step(ps, i, j, cfg) == ps,
{
}

/// A collision check clears the rest flag of a particle only through the
/// sideways push.
pub proof fn lemma_rest_cleared_only_by_push(f: Particle, s: Particle, cfg: SimConfig)
    requires
        f.rest_state,
        !resolve_spec(f, s, cfg).rest_state,
    ensures
        in_push_band(f, s, cfg),
{
}

/// The collision scan leaves a lone particle alone: no particle is ever
/// checked against itself.
pub proof fn lemma_lone_particle(ps: Seq<Particle>, cfg: SimConfig)
    requires
        ps.len() == 1,
    ensures
        collide_all(ps, cfg) == ps,
{
    assert(scan_row(ps, 1, 0, 1, cfg) == ps);
    assert(scan_rows(ps, 1, 1, cfg) == ps);
}

/// A tick adds exactly one particle when a spawn was requested and none
/// otherwise.
pub proof fn lemma_tick_population(
    ps: Seq<Particle>,
    request: Option<Position>,
    kind: ParticleKind,
    surface_height: u32,
    cfg: SimConfig,
)
    ensures
        tick_spec(ps, request, kind, surface_height, cfg).len() == ps.len() + if request is Some {
            1int
        } else {
            0
        },
{
    let floor = floor_of(surface_height, cfg.footprint_size) as i64;
    let g = gravity_all(spawn_spec(ps, request, kind), floor, cfg);
    lemma_scan_keeps(|q: Seq<Particle>| true, g, cfg);
}

/// A particle at rest when a tick starts is, after the tick, unchanged and
/// still at rest: gravity skips it and a collision check only moves the
/// falling particle of a pair, which is never at rest.
pub proof fn lemma_rest_persists(
    ps: Seq<Particle>,
    request: Option<Position>,
    kind: ParticleKind,
    surface_height: u32,
    cfg: SimConfig,
)
    ensures
        forall|k: int|
            0 <= k < ps.len() && (#[trigger] ps[k]).rest_state ==> tick_spec(
                ps,
                request,
                kind,
                surface_height,
                cfg,
            )[k] == ps[k],
{
    let floor = floor_of(surface_height, cfg.footprint_size) as i64;
    let sp = spawn_spec(ps, request, kind);
    let g = gravity_all(sp, floor, cfg);
    assert forall|k: int| 0 <= k < ps.len() && ps[k].rest_state implies g[k] == ps[k] by {
        assert(sp[k] == ps[k]);
    }
    let inv = |q: Seq<Particle>|
        forall|k: int| 0 <= k < g.len() && (#[trigger] g[k]).rest_state ==> q[k] == g[k];
    assert forall|q: Seq<Particle>, a: int, b: int|
        inv(q) && q.len() == g.len() && 0 <= a < b < g.len() implies #[trigger] inv(pair_step(q, a, b, cfg)) by {
        assert forall|k: int| 0 <= k < g.len() && (#[trigger] g[k]).rest_state implies pair_step(q, a, b, cfg)[k]
            == g[k] by {
            assert(q[k] == g[k]);
        }
    }
    lemma_scan_keeps(inv, g, cfg);
}

/// With a gravity step no longer than the footprint, a tick keeps every
/// particle at or above the floor, provided any spawn request is at or above
/// it too.
pub proof fn lemma_floor_invariant(
    ps: Seq<Particle>,
    request: Option<Position>,
    kind: ParticleKind,
    surface_height: u32,
    cfg: SimConfig,
)
    requires
        cfg.gravity <= cfg.footprint_size,
        above_floor(ps, floor_of(surface_height, cfg.footprint_size)),
        request matches Some(p) ==> p.y >= floor_of(surface_height, cfg.footprint_size),
    ensures
        above_floor(tick_spec(ps, request, kind, surface_height, cfg), floor_of(surface_height, cfg.footprint_size)),
{
    let fl = floor_of(surface_height, cfg.footprint_size);
    let floor = fl as i64;
    let sp = spawn_spec(ps, request, kind);
    assert(above_floor(sp, fl)) by {
        assert forall|k: int| 0 <= k < sp.len() implies (#[trigger] sp[k]).position.y >= fl by {
            if k < ps.len() {
                assert(sp[k] == ps[k]);
            }
        }
    }
    let g = gravity_all(sp, floor, cfg);
    assert(above_floor(g, fl)) by {
        assert forall|k: int| 0 <= k < g.len() implies (#[trigger] g[k]).position.y >= fl by {
            assert(sp[k].position.y >= fl);
        }
    }
    let inv = |q: Seq<Particle>| above_floor(q, fl);
    assert forall|q: Seq<Particle>, a: int, b: int|
        inv(q) && q.len() == g.len() && 0 <= a < b < g.len() implies #[trigger] inv(pair_step(q, a, b, cfg)) by {
        let r = pair_step(q, a, b, cfg);
        assert(q[a].position.y >= fl && q[b].position.y >= fl);
        assert forall|k: int| 0 <= k < r.len() implies (#[trigger] r[k]).position.y >= fl by {
            assert(q[k].position.y >= fl);
        }
    }
    lemma_scan_keeps(inv, g, cfg);
}

} // verus!
