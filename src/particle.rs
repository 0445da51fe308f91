//! The particle record and the kinds a particle can have.

use vstd::prelude::*;

verus! {

/// The variant of a particle. It only decides how a particle is drawn.
#[derive(Clone, Copy, Debug, PartialEq, Eq, Structural)]
pub enum ParticleKind {
    Basic,
    Complex,
}

impl ParticleKind {
    /// The name under which the kind is shown to the user.
    pub fn name(&self) -> (r: &'static str)
        ensures
            r@ == kind_name(*self),
    {
        match self {
            ParticleKind::Basic => "Basic",
            ParticleKind::Complex => "Complex",
        }
    }
}

/// The displayed name of each kind.
pub open spec fn kind_name(k: ParticleKind) -> Seq<char> {
    match k {
        ParticleKind::Basic => "Basic"@,
        ParticleKind::Complex => "Complex"@,
    }
}

/// A point in world space, in sub-pixel units.
#[derive(Clone, Copy, Debug, PartialEq, Eq, Structural)]
pub struct Position {
    pub x: i64,
    pub y: i64,
}

impl Position {
    pub fn new(x: i64, y: i64) -> (r: Position)
        ensures
            r == (Position { x, y }),
    {
        Position { x, y }
    }
}

/// One simulated grain.
#[derive(Clone, Copy, Debug, PartialEq, Eq, Structural)]
pub struct Particle {
    /// Unique and stable identity, assigned at spawn time.
    pub id: u64,
    pub kind: ParticleKind,
    pub position: Position,
    /// `true` once the particle has settled and no longer falls.
    pub rest_state: bool,
}

/// The kind that the next spawned particle will have.
#[derive(Clone, Copy, Debug, PartialEq, Eq, Structural)]
pub struct SelectedType {
    pub particle_type: ParticleKind,
}

impl SelectedType {
    /// A selection that starts on [`ParticleKind::Basic`].
    pub fn new() -> (r: SelectedType)
        ensures
            r.particle_type == ParticleKind::Basic,
    {
        SelectedType { particle_type: ParticleKind::Basic }
    }

    /// Applies this frame's key presses: the first key selects `Basic`, the
    /// second `Complex`; the first wins when both were pressed.
    pub fn update_particle_type(&mut self, first_key: bool, second_key: bool)
        ensures
            final(self).particle_type == (if first_key {
                ParticleKind::Basic
            } else if second_key {
                ParticleKind::Complex
            } else {
                old(self).particle_type
            }),
    {
        if first_key {
            self.particle_type = ParticleKind::Basic;
        } else if second_key {
            self.particle_type = ParticleKind::Complex;
        }
    }
}

} // verus!
