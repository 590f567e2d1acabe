//! Particles as the host generates them when the simulation is reset.

use super::layout::push_u32;
use super::layout::u32_le_bytes;
use super::layout::PARTICLE_KIND_MAX;
use rand::Rng;
use vstd::prelude::*;

verus! {

/// `rand::Rng::random_range` on the thread's generator `rand::rng()`, with
/// the range `0..bound`.
///
/// The crate samples an integer range from its lower bound up to, but not
/// including, its upper bound, and panics on an empty range, which `requires`
/// excludes. Which value of the range comes back is left open.
#[verifier::external_body]
fn random_below(bound: u32) -> (value: u32)
    requires
        bound > 0,
    ensures
        value < bound,
{
    rand::rng().random_range(0..bound)
}

/// The kind of a particle: a number below `PARTICLE_KIND_MAX`.
#[derive(Clone, Copy, Debug)]
pub struct ParticleKind(u32);

impl View for ParticleKind {
    type V = u32;

    closed spec fn view(&self) -> u32 {
        self.0
    }
}

impl ParticleKind {
    #[verifier::type_invariant]
    spec fn in_range(self) -> bool {
        self.0 < PARTICLE_KIND_MAX
    }

    /// The kind with number `kind`, if there is one.
    pub fn new(kind: u32) -> (result: Option<ParticleKind>)
        ensures
            result is Some <==> kind < PARTICLE_KIND_MAX,
            result is Some ==> result->0@ == kind,
    {
        if kind < PARTICLE_KIND_MAX {
            Some(ParticleKind(kind))
        } else {
            None
        }
    }

    /// A kind picked at random among all kinds.
    pub fn random() -> (kind: ParticleKind)
        ensures
            kind@ < PARTICLE_KIND_MAX,
    {
        ParticleKind(random_below(PARTICLE_KIND_MAX))
    }

    /// The kind's number.
    pub fn value(self) -> (kind: u32)
        ensures
            kind == self@,
            kind < PARTICLE_KIND_MAX,
    {
        proof {
            use_type_invariant(&self);
        }
        self.0
    }
}

/// A particle. Position and velocity are pairs of bit patterns of
/// single-precision numbers, x before y.
#[derive(Clone, Copy, Debug)]
pub struct Particle {
    pub position: [u32; 2],
    pub velocity: [u32; 2],
    pub kind: ParticleKind,
}

/// The bytes of a particle: position, velocity, kind.
pub open spec fn particle_bytes(particle: Particle) -> Seq<u8> {
    u32_le_bytes(particle.position[0]) + u32_le_bytes(particle.position[1]) + u32_le_bytes(
        particle.velocity[0],
    ) + u32_le_bytes(particle.velocity[1]) + u32_le_bytes(particle.kind@)
}

/// The bytes of a sequence of particles, one particle after the other.
pub open spec fn particles_bytes(particles: Seq<Particle>) -> Seq<u8>
    decreases particles.len(),
{
    if particles.len() == 0 {
        Seq::empty()
    } else {
        particles_bytes(particles.drop_last()) + particle_bytes(particles.last())
    }
}

/// Each particle takes twenty bytes.
pub proof fn lemma_particles_bytes_len(particles: Seq<Particle>)
    ensures
        particles_bytes(particles).len() == 20 * particles.len(),
    decreases particles.len(),
{
    if particles.len() > 0 {
        lemma_particles_bytes_len(particles.drop_last());
    }
}

/// Whether `particle` is what a reset puts at `position`: at rest, and of
/// some kind.
pub open spec fn fresh_at(particle: Particle, position: [u32; 2]) -> bool {
    &&& particle.position == position
    &&& particle.velocity[0] == 0
    &&& particle.velocity[1] == 0
    &&& particle.kind@ < PARTICLE_KIND_MAX
}

impl Particle {
    /// A particle at `position`, at rest, of the given kind.
    pub fn with_kind(position: [u32; 2], kind: ParticleKind) -> (particle: Particle)
        ensures
            fresh_at(particle, position),
            particle.kind == kind,
    {
        proof {
            use_type_invariant(&kind);
        }
        Particle { position, velocity: [0, 0], kind }
    }

    /// A particle at `position`, at rest, of a kind picked at random.
    pub fn new(position: [u32; 2]) -> (particle: Particle)
        ensures
            fresh_at(particle, position),
    {
        Particle::with_kind(position, ParticleKind::random())
    }

    /// One new particle for each of `positions`, in their order.
    pub fn scatter(positions: &Vec<[u32; 2]>) -> (particles: Vec<Particle>)
        ensures
            particles@.len() == positions@.len(),
            forall|i: int| 0 <= i < positions@.len() ==> fresh_at(#[trigger] particles@[i], positions@[i]),
    {
        let mut particles: Vec<Particle> = Vec::new();
        let mut i: usize = 0;
        while i < positions.len()
            invariant
                i <= positions@.len(),
                particles@.len() == i,
                forall|k: int| 0 <= k < i ==> fresh_at(#[trigger] particles@[k], positions@[k]),
            decreases positions@.len() - i,
        {
            particles.push(Particle::new(positions[i]));
            i = i + 1;
        }
        particles
    }

    /// Appends the particle's bytes.
    pub fn encode(&self, bytes: &mut Vec<u8>)
        ensures
            final(bytes)@ == old(bytes)@ + particle_bytes(*self),
    {
        push_u32(bytes, self.position[0]);
        push_u32(bytes, self.position[1]);
        push_u32(bytes, self.velocity[0]);
        push_u32(bytes, self.velocity[1]);
        push_u32(bytes, self.kind.value());
        assert(bytes@ =~= old(bytes)@ + particle_bytes(*self));
    }
}

/// Appends the bytes of `particles`, one particle after the other.
pub fn encode_particles(particles: &Vec<Particle>, bytes: &mut Vec<u8>)
    ensures
        final(bytes)@ == old(bytes)@ + particles_bytes(particles@),
{
    let mut i: usize = 0;
    assert(particles_bytes(particles@.take(0)) =~= Seq::<u8>::empty());
    assert(bytes@ =~= old(bytes)@ + particles_bytes(particles@.take(0)));
    while i < particles.len()
        invariant
            i <= particles@.len(),
            bytes@ == old(bytes)@ + particles_bytes(particles@.take(i as int)),
        decreases particles@.len() - i,
    {
        particles[i].encode(bytes);
        proof {
            let next = particles@.take(i + 1);
            assert(next.drop_last() =~= particles@.take(i as int));
            assert(next.last() == particles@[i as int]);
            assert(bytes@ =~= old(bytes)@ + particles_bytes(next));
        }
        i = i + 1;
    }
    assert(particles@.take(particles@.len() as int) =~= particles@);
}

} // verus!
