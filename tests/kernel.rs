use falling_sand::particle::{Particle, ParticleKind, Position, SelectedType};
use falling_sand::physics::{
    check_for_down_particle, collide_pair, cursor_to_world, floor_border, gravity_step,
    particle_collision_system, spawn_particle, Sandbox, SimConfig, GRAVITY, OVERLAP_THRESHOLD,
    PARTICLE_SIZE,
};
use falling_sand::store::{ParticleCount, ParticleStore};

fn particle(id: u64, x: i64, y: i64, rest_state: bool) -> Particle {
    Particle { id, kind: ParticleKind::Basic, position: Position::new(x, y), rest_state }
}

#[test]
fn reference_config_values() {
    let cfg = SimConfig::reference();
    assert_eq!(cfg.footprint_size, PARTICLE_SIZE);
    assert_eq!(cfg.gravity, GRAVITY);
    assert_eq!(cfg.overlap_threshold, OVERLAP_THRESHOLD);
    assert_eq!((PARTICLE_SIZE, GRAVITY, OVERLAP_THRESHOLD), (50, 205, 0));
}

#[test]
fn floor_border_of_playfield() {
    assert_eq!(floor_border(6000, 50), -2975);
    assert_eq!(floor_border(5031, 50), -2490);
    assert_eq!(floor_border(0, 0), 0);
}

#[test]
fn cursor_maps_to_centered_world() {
    assert_eq!(cursor_to_world(0, 0, 8000, 6000), Position::new(-4000, 3000));
    assert_eq!(cursor_to_world(4000, 3000, 8000, 6000), Position::new(0, 0));
    assert_eq!(cursor_to_world(8000, 6000, 8000, 6000), Position::new(4000, -3000));
}

#[test]
fn gravity_drops_by_constant_above_floor() {
    let cfg = SimConfig::reference();
    let mut p = particle(0, 7, 1000, false);
    gravity_step(&mut p, -2975, &cfg);
    assert_eq!(p.position, Position::new(7, 795));
    assert!(!p.rest_state);
}

#[test]
fn gravity_snaps_to_floor_and_rests() {
    let cfg = SimConfig::reference();
    let mut p = particle(0, 7, -2925, false);
    gravity_step(&mut p, -2975, &cfg);
    assert_eq!(p.position, Position::new(7, -2975));
    assert!(p.rest_state);
    let mut below = particle(1, 0, -4000, false);
    gravity_step(&mut below, -2975, &cfg);
    assert_eq!(below.position.y, -2975);
    assert!(below.rest_state);
}

#[test]
fn gravity_skips_resting_particle() {
    let cfg = SimConfig::reference();
    let mut p = particle(0, 0, 500, true);
    gravity_step(&mut p, -2975, &cfg);
    assert_eq!(p, particle(0, 0, 500, true));
}

#[test]
fn gravity_can_overshoot_floor_when_step_exceeds_footprint() {
    let cfg = SimConfig::reference();
    let mut p = particle(0, 0, -2975 + 60, false);
    gravity_step(&mut p, -2975, &cfg);
    assert_eq!(p.position.y, -2975 + 60 - 205);
    assert!(!p.rest_state);
}

#[test]
fn push_left_when_offset_non_positive() {
    let cfg = SimConfig::new(50, 205, 0);
    let s = particle(0, 10, 100, true);
    let mut f = particle(1, 0, 130, false);
    check_for_down_particle(&mut f, &s, &cfg);
    assert_eq!(f.position, Position::new(-40, 130));
    assert!(!f.rest_state);
    let mut centered = particle(2, 10, 120, false);
    check_for_down_particle(&mut centered, &s, &cfg);
    assert_eq!(centered.position, Position::new(-40, 120));
}

#[test]
fn push_right_when_offset_positive() {
    let cfg = SimConfig::new(50, 205, 0);
    let s = particle(0, 10, 100, true);
    let mut f = particle(1, 30, 150, false);
    check_for_down_particle(&mut f, &s, &cfg);
    assert_eq!(f.position, Position::new(60, 150));
    assert!(!f.rest_state);
}

#[test]
fn land_on_top_when_nearly_centered() {
    let cfg = SimConfig::new(50, 205, 25);
    let s = particle(0, 10, 100, true);
    let mut f = particle(1, 0, 130, false);
    check_for_down_particle(&mut f, &s, &cfg);
    assert_eq!(f.position, Position::new(0, 150));
    assert!(f.rest_state);
}

#[test]
fn no_interaction_when_far_apart() {
    let cfg = SimConfig::new(50, 205, 25);
    let s = particle(0, 10, 100, true);
    let mut high = particle(1, 10, 151, false);
    check_for_down_particle(&mut high, &s, &cfg);
    assert_eq!(high, particle(1, 10, 151, false));
    let mut wide = particle(2, 60, 120, false);
    check_for_down_particle(&mut wide, &s, &cfg);
    assert_eq!(wide, particle(2, 60, 120, false));
}

#[test]
fn push_saturates_at_coordinate_limit() {
    let cfg = SimConfig::new(50, 205, 0);
    let s = particle(0, i64::MIN, 100, true);
    let mut f = particle(1, i64::MIN, 120, false);
    check_for_down_particle(&mut f, &s, &cfg);
    assert_eq!(f.position.x, i64::MIN);
}

#[test]
fn resting_pair_is_untouched() {
    let cfg = SimConfig::new(50, 30, 25);
    let mut sb = Sandbox::new(cfg);
    sb.tick(Some(Position::new(0, -2975)), 6000);
    sb.tick(Some(Position::new(0, -2900)), 6000);
    let a = sb.store().get(0);
    let b = sb.store().get(1);
    assert_eq!(a, particle(0, 0, -2975, true));
    assert_eq!(b, particle(1, 0, -2925, true));
    sb.tick(None, 6000);
    assert_eq!(sb.store().get(0), a);
    assert_eq!(sb.store().get(1), b);
    let mut store = ParticleStore::new();
    store.insert(ParticleKind::Basic, Position::new(0, -2975));
    store.insert(ParticleKind::Basic, Position::new(0, -2950));
    collide_pair(&mut store, 0, 1, &cfg);
    assert_eq!(store.get(0), particle(0, 0, -2975, false));
    assert_eq!(store.get(1), particle(1, 0, -2925, true));
}

#[test]
fn collide_pair_leaves_two_resting_particles() {
    let cfg = SimConfig::new(50, 205, 25);
    let mut sb = Sandbox::new(cfg);
    // Both land on the floor of a 6000-high field, side by side.
    sb.tick(Some(Position::new(0, -2950)), 6000);
    sb.tick(Some(Position::new(100, -2950)), 6000);
    let a = sb.store().get(0);
    let b = sb.store().get(1);
    assert!(a.rest_state && b.rest_state);
    sb.tick(None, 6000);
    assert_eq!(sb.store().get(0), a);
    assert_eq!(sb.store().get(1), b);
}

#[test]
fn lone_particle_is_not_paired_with_itself() {
    let cfg = SimConfig::new(50, 205, 25);
    let mut store = ParticleStore::new();
    store.insert(ParticleKind::Complex, Position::new(3, 40));
    let before = store.get(0);
    particle_collision_system(&mut store, &cfg);
    assert_eq!(store.get(0), before);
    assert_eq!(store.len(), 1);
}

#[test]
fn spawn_without_request_changes_nothing() {
    let mut store = ParticleStore::new();
    let selected = SelectedType::new();
    assert_eq!(spawn_particle(&mut store, None, &selected), None);
    assert_eq!(store.len(), 0);
    assert_eq!(store.particle_count().count, 0);
}

#[test]
fn spawn_with_request_adds_one_particle() {
    let mut store = ParticleStore::new();
    let mut selected = SelectedType::new();
    selected.update_particle_type(false, true);
    let id = spawn_particle(&mut store, Some(Position::new(12, 34)), &selected);
    assert_eq!(id, Some(0));
    assert_eq!(store.len(), 1);
    assert_eq!(store.particle_count().count, 1);
    assert_eq!(
        store.get(0),
        Particle {
            id: 0,
            kind: ParticleKind::Complex,
            position: Position::new(12, 34),
            rest_state: false
        }
    );
}

#[test]
fn tick_population_grows_by_one_per_request() {
    let mut sb = Sandbox::new(SimConfig::reference());
    assert_eq!(sb.tick(Some(Position::new(0, 1000)), 6000), Some(0));
    assert_eq!(sb.store().len(), 1);
    assert_eq!(sb.tick(None, 6000), None);
    assert_eq!(sb.store().len(), 1);
    assert_eq!(sb.tick(Some(Position::new(0, 1000)), 6000), Some(1));
    assert_eq!(sb.store().len(), 2);
    assert_eq!(sb.store().particle_count().count, 2);
}

#[test]
fn ids_are_distinct_and_increasing() {
    let mut sb = Sandbox::new(SimConfig::reference());
    let mut ids = Vec::new();
    for k in 0..20i64 {
        let request = if k % 3 == 1 { None } else { Some(Position::new(k * 7, 1000)) };
        if let Some(id) = sb.tick(request, 6000) {
            ids.push(id);
        }
    }
    assert_eq!(ids.len(), 13);
    for w in ids.windows(2) {
        assert!(w[0] < w[1]);
    }
    for i in 0..sb.store().len() {
        assert_eq!(sb.store().get(i).id, i as u64);
    }
}

#[test]
fn next_id_counts_up() {
    let mut c = ParticleCount::new();
    assert_eq!(c.next_id(), 0);
    assert_eq!(c.next_id(), 1);
    assert_eq!(c.count, 2);
}

#[test]
fn stacking_scenario_lands_centered() {
    let cfg = SimConfig::new(PARTICLE_SIZE, GRAVITY, 25);
    let height = 5030;
    let mut sb = Sandbox::new(cfg);
    sb.tick(Some(Position::new(0, 1000)), height);
    let mut ticks = 0;
    while !sb.store().get(0).rest_state {
        sb.tick(None, height);
        ticks += 1;
        assert!(ticks < 1000);
    }
    let a = sb.store().get(0);
    assert_eq!(a.position, Position::new(0, -2490));
    sb.tick(Some(Position::new(0, 1000)), height);
    for _ in 0..100 {
        sb.tick(None, height);
    }
    let a = sb.store().get(0);
    let b = sb.store().get(1);
    assert!(b.rest_state);
    assert_eq!(b.position.y, a.position.y + 50);
    assert_eq!(b.position.x, a.position.x);
}

#[test]
fn reference_threshold_pushes_centered_particle_aside() {
    let cfg = SimConfig::new(50, 50, 0);
    let mut sb = Sandbox::new(cfg);
    sb.tick(Some(Position::new(0, -2975)), 6000);
    sb.tick(Some(Position::new(0, -2900)), 6000);
    let b = sb.store().get(1);
    assert_eq!(b.position, Position::new(-50, -2950));
    assert!(!b.rest_state);
}

#[test]
fn floor_kept_when_step_fits_footprint() {
    let cfg = SimConfig::new(50, 30, 25);
    let height = 6000;
    let floor = floor_border(height, 50);
    let mut sb = Sandbox::new(cfg);
    for k in 0..200i64 {
        let request = if k % 4 == 0 { Some(Position::new((k % 9) * 11, 600 + k)) } else { None };
        sb.tick(request, height);
        for i in 0..sb.store().len() {
            assert!(sb.store().get(i).position.y >= floor);
        }
    }
}

#[test]
fn rest_persists_across_ticks() {
    let cfg = SimConfig::new(50, 30, 0);
    let mut sb = Sandbox::new(cfg);
    sb.tick(Some(Position::new(0, -2975)), 6000);
    let a = sb.store().get(0);
    assert!(a.rest_state);
    for k in 0..50i64 {
        sb.tick(Some(Position::new(k % 3, -2000)), 6000);
        assert_eq!(sb.store().get(0), a);
    }
}

#[test]
fn kind_names() {
    assert_eq!(ParticleKind::Basic.name(), "Basic");
    assert_eq!(ParticleKind::Complex.name(), "Complex");
}

#[test]
fn selection_follows_keys() {
    let mut sb = Sandbox::new(SimConfig::reference());
    assert_eq!(sb.selected().particle_type, ParticleKind::Basic);
    sb.update_particle_type(false, true);
    assert_eq!(sb.selected().particle_type, ParticleKind::Complex);
    sb.update_particle_type(false, false);
    assert_eq!(sb.selected().particle_type, ParticleKind::Complex);
    sb.update_particle_type(true, true);
    assert_eq!(sb.selected().particle_type, ParticleKind::Basic);
    sb.tick(Some(Position::new(0, 0)), 6000);
    assert_eq!(sb.store().get(0).kind, ParticleKind::Basic);
    assert_eq!(sb.config(), SimConfig::reference());
}

#[test]
fn default_config_is_reference() {
    assert_eq!(SimConfig::default(), SimConfig::reference());
}
