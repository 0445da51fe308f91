//! The per-tick physics kernel: spawning, gravity stepping and pairwise
//! collision settling.

use vstd::prelude::*;
use crate::particle::{Particle, ParticleKind, Position, SelectedType};
use crate::store::ParticleStore;
use crate::laws::lemma_tick_population;

verus! {

/// Sub-pixel units per render pixel.
pub const UNITS_PER_PIXEL: i64 = 10;

/// Side of a particle's square footprint: 5 pixels.
pub const PARTICLE_SIZE: u32 = 50;

/// Drop applied to a falling particle on each tick: 20.5 pixels.
pub const GRAVITY: u32 = 205;

/// Lower edge of the lateral-push band of horizontal offsets. At 0 the
/// landing band below it is empty, so a falling particle that overlaps the
/// one below it is always pushed aside; landing on top needs a larger value.
pub const OVERLAP_THRESHOLD: u32 = 0;

/// The kernel's constants, all in sub-pixel units.
#[derive(Clone, Copy, Debug, PartialEq, Eq, Structural)]
pub struct SimConfig {
    pub footprint_size: u32,
    pub gravity: u32,
    /// Horizontal offsets in `[overlap_threshold, footprint_size)` push a
    /// falling particle sideways; offsets below it land it on top.
    pub overlap_threshold: u32,
}

impl SimConfig {
    pub fn new(footprint_size: u32, gravity: u32, overlap_threshold: u32) -> (r: SimConfig)
        ensures
            r == (SimConfig { footprint_size, gravity, overlap_threshold }),
    {
        SimConfig { footprint_size, gravity, overlap_threshold }
    }

    /// The default tuning.
    pub fn reference() -> (r: SimConfig)
        ensures
            r.footprint_size == PARTICLE_SIZE,
            r.gravity == GRAVITY,
            r.overlap_threshold == OVERLAP_THRESHOLD,
    {
        SimConfig {
            footprint_size: PARTICLE_SIZE,
            gravity: GRAVITY,
            overlap_threshold: OVERLAP_THRESHOLD,
        }
    }
}

/// The y at which a particle's bottom edge touches the bottom of a
/// playfield of the given height.
pub open spec fn floor_of(surface_height: u32, footprint_size: u32) -> int {
    -((surface_height as int) / 2) + (footprint_size as int) / 2
}

impl Default for SimConfig {
    fn default() -> (r: SimConfig)
        ensures
            r == (SimConfig {
                footprint_size: PARTICLE_SIZE,
                gravity: GRAVITY,
                overlap_threshold: OVERLAP_THRESHOLD,
            }),
    {
        SimConfig::reference()
    }
}

/// Computes [`floor_of`].
pub fn floor_border(surface_height: u32, footprint_size: u32) -> (r: i64)
    ensures
        r == floor_of(surface_height, footprint_size),
{
    -((surface_height / 2) as i64) + (footprint_size / 2) as i64
}

/// The world position of a cursor given in window coordinates (origin at
/// the top left, y growing downward).
pub fn cursor_to_world(cursor_x: u32, cursor_y: u32, width: u32, height: u32) -> (r: Position)
    ensures
        r.x == cursor_x - (width as int) / 2,
        r.y == -(cursor_y - (height as int) / 2),
{
    Position {
        x: cursor_x as i64 - (width / 2) as i64,
        y: -(cursor_y as i64 - (height / 2) as i64),
    }
}

/// `v` held to the range of `i64`.
pub open spec fn clamp_i64(v: int) -> i64 {
    if v < i64::MIN {
        i64::MIN
    } else if v > i64::MAX {
        i64::MAX
    } else {
        v as i64
    }
}

fn clamp_wide(v: i128) -> (r: i64)
    ensures
        r == clamp_i64(v as int),
{
    if v < i64::MIN as i128 {
        i64::MIN
    } else if v > i64::MAX as i128 {
        i64::MAX
    } else {
        v as i64
    }
}

/// A floor that [`floor_border`] can return.
pub open spec fn floor_in_range(floor: i64) -> bool {
    -0x8000_0000 <= floor <= 0x8000_0000
}

/// One gravity step of one particle.
pub open spec fn gravity_spec(p: Particle, floor: i64, cfg: SimConfig) -> Particle {
    if p.rest_state {
        p
    } else if p.position.y - cfg.footprint_size > floor {
        Particle {
            position: Position { x: p.position.x, y: (p.position.y - cfg.gravity) as i64 },
            ..p
        }
    } else {
        Particle { position: Position { x: p.position.x, y: floor }, rest_state: true, ..p }
    }
}

/// Applies one gravity step to `p`.
pub fn gravity_step(p: &mut Particle, floor: i64, cfg: &SimConfig)
    requires
        floor_in_range(floor),
    ensures
        *final(p) == gravity_spec(*old(p), floor, *cfg),
{
    if !p.rest_state {
        let next_y: i128 = p.position.y as i128 - cfg.footprint_size as i128;
        if next_y > floor as i128 {
            p.position.y = p.position.y - cfg.gravity as i64;
        } else {
            p.position.y = floor;
            p.rest_state = true;
        }
    }
}

/// Gravity applied to every particle.
pub open spec fn gravity_all(ps: Seq<Particle>, floor: i64, cfg: SimConfig) -> Seq<Particle> {
    Seq::new(ps.len(), |k: int| gravity_spec(ps[k], floor, cfg))
}

/// Applies one gravity step to every particle of the store.
pub fn particle_gravity_system(store: &mut ParticleStore, surface_height: u32, cfg: &SimConfig)
    requires
        old(store).wf(),
    ensures
        final(store).wf(),
        final(store)@ == gravity_all(old(store)@, floor_of(surface_height, cfg.footprint_size) as i64, *cfg),
{
    let floor = floor_border(surface_height, cfg.footprint_size);
    let n = store.len();
    let mut i: usize = 0;
    while i < n
        invariant
            store.wf(),
            n == store@.len(),
            n == old(store)@.len(),
            floor == floor_of(surface_height, cfg.footprint_size),
            i <= n,
            forall|k: int| 0 <= k < i ==> store@[k] == gravity_spec(old(store)@[k], floor, *cfg),
            forall|k: int| i <= k < n ==> store@[k] == old(store)@[k],
        decreases n - i,
    {
        let mut p = store.get(i);
        gravity_step(&mut p, floor, cfg);
        store.set(i, p);
        i = i + 1;
    }
    assert(store@ =~= gravity_all(old(store)@, floor, *cfg));
}

/// The falling particle `f` after it was checked against `s`, the particle
/// below it.
pub open spec fn resolve_spec(f: Particle, s: Particle, cfg: SimConfig) -> Particle {
    let size = cfg.footprint_size as int;
    let dx = f.position.x - s.position.x;
    let adx = if dx < 0 { -dx } else { dx };
    if f.position.y - s.position.y > size {
        f
    } else if cfg.overlap_threshold <= adx < size {
        let x = if dx <= 0 { f.position.x - (size + dx) } else { f.position.x + (size - dx) };
        Particle { position: Position { x: clamp_i64(x), y: f.position.y }, rest_state: false, ..f }
    } else if adx < cfg.overlap_threshold {
        Particle {
            position: Position { x: f.position.x, y: clamp_i64(s.position.y + size) },
            rest_state: true,
            ..f
        }
    } else {
        f
    }
}

/// Checks the falling particle `f` against the particle `s` below it:
/// pushes it sideways when it overlaps `s` off-center, lands it on top when
/// it is nearly centered.
pub fn check_for_down_particle(f: &mut Particle, s: &Particle, cfg: &SimConfig)
    ensures
        *final(f) == resolve_spec(*old(f), *s, *cfg),
{
    let size = cfg.footprint_size as i128;
    if f.position.y as i128 - s.position.y as i128 <= size {
        let dx: i128 = f.position.x as i128 - s.position.x as i128;
        let adx: i128 = if dx < 0 { -dx } else { dx };
        let threshold = cfg.overlap_threshold as i128;
        if threshold <= adx && adx < size {
            let x: i128 = if dx <= 0 {
                f.position.x as i128 - (size + dx)
            } else {
                f.position.x as i128 + (size - dx)
            };
            f.position.x = clamp_wide(x);
            f.rest_state = false;
        } else if adx < threshold {
            f.position.y = clamp_wide(s.position.y as i128 + size);
            f.rest_state = true;
        }
    }
}

/// The pair `(i, j)` after one collision check: the strictly higher one, if
/// it is not at rest, is checked against the other.
pub open spec fn pair_step(ps: Seq<Particle>, i: int, j: int, cfg: SimConfig) -> Seq<Particle> {
    let a = ps[i];
    let b = ps[j];
    if a.position.y > b.position.y && !a.rest_state {
        ps.update(i, resolve_spec(a, b, cfg))
    } else if b.position.y > a.position.y && !b.rest_state {
        ps.update(j, resolve_spec(b, a, cfg))
    } else {
        ps
    }
}

/// Checks the pairs `(i, j)`, `(i, j + 1)`, ..., `(i, n - 1)` in turn.
pub open spec fn scan_row(ps: Seq<Particle>, n: int, i: int, j: int, cfg: SimConfig) -> Seq<Particle>
    decreases n - j,
{
    if j < n {
        scan_row(pair_step(ps, i, j, cfg), n, i, j + 1, cfg)
    } else {
        ps
    }
}

/// Checks every pair `(a, b)` with `i <= a < b < n`, row by row.
pub open spec fn scan_rows(ps: Seq<Particle>, n: int, i: int, cfg: SimConfig) -> Seq<Particle>
    decreases n - i,
{
    if i < n {
        scan_rows(scan_row(ps, n, i, i + 1, cfg), n, i + 1, cfg)
    } else {
        ps
    }
}

/// One collision scan over every unordered pair of distinct particles.
pub open spec fn collide_all(ps: Seq<Particle>, cfg: SimConfig) -> Seq<Particle> {
    scan_rows(ps, ps.len() as int, 0, cfg)
}

/// Runs one collision check on the pair of distinct particles `(i, j)`.
pub fn collide_pair(store: &mut ParticleStore, i: usize, j: usize, cfg: &SimConfig)
    requires
        old(store).wf(),
        i < j < old(store)@.len(),
    ensures
        final(store).wf(),
        final(store)@ == pair_step(old(store)@, i as int, j as int, *cfg),
        old(store)@[i as int].rest_state && old(store)@[j as int].rest_state ==> final(store)@ == old(store)@,
{
    let a = store.get(i);
    let b = store.get(j);
    if a.position.y > b.position.y && !a.rest_state {
        let mut f = a;
        check_for_down_particle(&mut f, &b, cfg);
        store.set(i, f);
    } else if b.position.y > a.position.y && !b.rest_state {
        let mut f = b;
        check_for_down_particle(&mut f, &a, cfg);
        store.set(j, f);
    }
}

/// Runs one collision scan: every unordered pair of distinct particles is
/// checked once, in the order `(0, 1), (0, 2), ..., (1, 2), ...`.
pub fn particle_collision_system(store: &mut ParticleStore, cfg: &SimConfig)
    requires
        old(store).wf(),
    ensures
        final(store).wf(),
        final(store)@ == collide_all(old(store)@, *cfg),
        old(store)@.len() <= 1 ==> final(store)@ == old(store)@,
{
    let n = store.len();
    let ghost start = store@;
    let mut i: usize = 0;
    while i < n
        invariant
            store.wf(),
            n == store@.len(),
            start == old(store)@,
            i <= n,
            scan_rows(store@, n as int, i as int, *cfg) == scan_rows(start, n as int, 0, *cfg),
        decreases n - i,
    {
        let mut j: usize = i + 1;
        while j < n
            invariant
                store.wf(),
                n == store@.len(),
                i < n,
                i < j <= n,
                scan_rows(scan_row(store@, n as int, i as int, j as int, *cfg), n as int, i as int + 1, *cfg)
                    == scan_rows(start, n as int, 0, *cfg),
            decreases n - j,
        {
            collide_pair(store, i, j, cfg);
            j = j + 1;
        }
        i = i + 1;
    }
    if n <= 1 {
        assert(scan_rows(start, n as int, 0, *cfg) == start) by {
            if n == 1 {
                assert(scan_row(start, 1, 0, 1, *cfg) == start);
                assert(scan_rows(start, 1, 1, *cfg) == start);
            }
        }
    }
}

/// The particles after a spawn request was served.
pub open spec fn spawn_spec(ps: Seq<Particle>, request: Option<Position>, kind: ParticleKind) -> Seq<Particle> {
    match request {
        Some(position) => ps.push(
            Particle { id: ps.len() as u64, kind, position, rest_state: false },
        ),
        None => ps,
    }
}

/// Serves this tick's spawn request, if any: a particle of the selected kind
/// appears at the requested position. Returns the new particle's id.
pub fn spawn_particle(store: &mut ParticleStore, request: Option<Position>, selected: &SelectedType) -> (r: Option<u64>)
    requires
        old(store).wf(),
        old(store)@.len() < u64::MAX,
    ensures
        final(store).wf(),
        final(store)@ == spawn_spec(old(store)@, request, selected.particle_type),
        final(store).spec_count() == old(store).spec_count() + if request is Some { 1int } else { 0 },
        r == (match request {
            Some(_) => Some(old(store)@.len() as u64),
            None => None::<u64>,
        }),
{
    match request {
        Some(position) => Some(store.insert(selected.particle_type, position)),
        None => None,
    }
}

/// One whole tick: spawn, then gravity, then collisions.
pub open spec fn tick_spec(
    ps: Seq<Particle>,
    request: Option<Position>,
    kind: ParticleKind,
    surface_height: u32,
    cfg: SimConfig,
) -> Seq<Particle> {
    let floor = floor_of(surface_height, cfg.footprint_size) as i64;
    collide_all(gravity_all(spawn_spec(ps, request, kind), floor, cfg), cfg)
}

/// The sandbox: its particles, the selected kind and the kernel's constants.
pub struct Sandbox {
    pub(crate) store: ParticleStore,
    pub(crate) selected: SelectedType,
    pub(crate) config: SimConfig,
}

impl Sandbox {
    pub open(crate) spec fn wf(&self) -> bool {
        self.store.wf()
    }

    /// The particles, in spawn order.
    pub open(crate) spec fn particles(&self) -> Seq<Particle> {
        self.store@
    }

    pub open(crate) spec fn spec_selected(&self) -> SelectedType {
        self.selected
    }

    pub open(crate) spec fn spec_config(&self) -> SimConfig {
        self.config
    }

    /// An empty sandbox with `Basic` selected.
    pub fn new(config: SimConfig) -> (r: Sandbox)
        ensures
            r.wf(),
            r.particles() == Seq::<Particle>::empty(),
            r.spec_selected().particle_type == ParticleKind::Basic,
            r.spec_config() == config,
    {
        Sandbox { store: ParticleStore::new(), selected: SelectedType::new(), config }
    }

    pub fn store(&self) -> (r: &ParticleStore)
        ensures
            r@ == self.particles(),
    {
        &self.store
    }

    pub fn selected(&self) -> (r: SelectedType)
        ensures
            r == self.spec_selected(),
    {
        self.selected
    }

    pub fn config(&self) -> (r: SimConfig)
        ensures
            r == self.spec_config(),
    {
        self.config
    }

    /// Applies this frame's kind-selection key presses.
    pub fn update_particle_type(&mut self, first_key: bool, second_key: bool)
        requires
            old(self).wf(),
        ensures
            final(self).wf(),
            final(self).particles() == old(self).particles(),
            final(self).spec_config() == old(self).spec_config(),
            final(self).spec_selected().particle_type == (if first_key {
                ParticleKind::Basic
            } else if second_key {
                ParticleKind::Complex
            } else {
                old(self).spec_selected().particle_type
            }),
    {
        self.selected.update_particle_type(first_key, second_key);
    }

    /// Runs one tick against a playfield of the given height. Returns the id
    /// of the particle spawned, if any.
    pub fn tick(&mut self, request: Option<Position>, surface_height: u32) -> (r: Option<u64>)
        requires
            old(self).wf(),
            old(self).particles().len() < u64::MAX,
        ensures
            final(self).wf(),
            final(self).spec_selected() == old(self).spec_selected(),
            final(self).spec_config() == old(self).spec_config(),
            final(self).particles() == tick_spec(
                old(self).particles(),
                request,
                old(self).spec_selected().particle_type,
                surface_height,
                old(self).spec_config(),
            ),
            final(self).particles().len() == old(self).particles().len() + if request is Some {
                1int
            } else {
                0
            },
            r == (match request {
                Some(_) => Some(old(self).particles().len() as u64),
                None => None::<u64>,
            }),
    {
        proof {
            lemma_tick_population(self.particles(), request, self.selected.particle_type, surface_height, self.config);
        }
        let r = spawn_particle(&mut self.store, request, &self.selected);
        particle_gravity_system(&mut self.store, surface_height, &self.config);
        particle_collision_system(&mut self.store, &self.config);
        r
    }
}

} // verus!
