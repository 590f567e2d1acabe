//! The simulation state: global constants, the pending reset, and which of
//! the two particle buffers is current.
//!
//! Each update stages the constants, the rule table and, on a reset, fresh
//! particles; records their copies and the compute pass that reads the
//! current particle buffer and writes the other one; and then swaps the two.

use super::commands::Buffer;
use super::commands::BufferDesc;
use super::commands::Command;
use super::layout::push_u32;
use super::layout::u32_le_bytes;
use super::layout::CONSTANT_BUFFER_SIZE;
use super::layout::NUM_RULES;
use super::layout::NUM_STAGING_BUFFERS;
use super::layout::PARTICLE_KIND_MAX;
use super::layout::PARTICLE_SIZE;
use super::layout::RULES_SIZE;
use super::layout::RULE_SIZE;
use super::layout::SHADER_GLOBAL_CONSTANTS_SIZE;
use super::layout::THREAD_GROUP_SIZE;
use super::layout::VERTEX_SIZE;
use super::particle::encode_particles;
use super::particle::lemma_particles_bytes_len;
use super::particle::particles_bytes;
use super::particle::Particle;
use super::rules::lemma_rules_bytes_at;
use super::rules::lemma_rules_bytes_len;
use super::rules::rule_bytes;
use super::rules::rules_bytes;
use super::rules::Rule;
use super::rules::Rules;
use crate::d3dx12::HeapType;
use crate::renderer::protocol::lemma_pipelining_bound;
use crate::renderer::FrameManagerView;
use vstd::prelude::*;

verus! {

/// Friction that a new world starts with: the bit pattern of 0.9.
pub const DEFAULT_FRICTION: u32 = 0x3f66_6666;

/// Force multiplier that a new world starts with: the bit pattern of 0.05.
pub const DEFAULT_FORCE_MULTIPLIER: u32 = 0x3d4c_cccd;

/// The constants that every invocation of the compute pass reads. World
/// size, friction and force multiplier are bit patterns of single-precision
/// numbers.
#[derive(Clone, Copy, Debug)]
pub struct ShaderGlobalConstants {
    pub particle_type_max: u32,
    pub num_particles: u32,
    pub world_size: [u32; 2],
    pub friction: u32,
    pub force_multiplier: u32,
}

/// The bytes of the constants, in declaration order.
pub open spec fn constants_bytes(constants: ShaderGlobalConstants) -> Seq<u8> {
    u32_le_bytes(constants.particle_type_max) + u32_le_bytes(constants.num_particles)
        + u32_le_bytes(constants.world_size[0]) + u32_le_bytes(constants.world_size[1])
        + u32_le_bytes(constants.friction) + u32_le_bytes(constants.force_multiplier)
}

/// What one update hands to the caller: the bytes to write at the start of
/// the staging buffer, and the commands to record after that, in order.
pub struct Tick {
    pub staging: Buffer,
    pub staged: Vec<u8>,
    pub commands: Vec<Command>,
}

/// The simulation state as contracts see it.
pub struct WorldView {
    /// The constants as the next update stages them.
    pub constants: ShaderGlobalConstants,
    /// Whether the next update puts fresh particles into the current buffer.
    pub reset_pending: bool,
    /// 0 or 1: the particle buffer that the next compute pass reads, and the
    /// staging buffer that the next update writes.
    pub generation: usize,
    /// Number of particles that the buffers were sized for.
    pub capacity: u32,
}

impl WorldView {
    /// The state's invariant: one of the two generations is current, and the
    /// staging buffer's size fits the machine.
    pub open spec fn wf(self) -> bool {
        &&& self.generation < 2
        &&& self.capacity * PARTICLE_SIZE + CONSTANT_BUFFER_SIZE <= usize::MAX
    }

    /// The particle buffer that the next compute pass reads.
    pub open spec fn current(self) -> Buffer {
        Buffer::Particles(self.generation)
    }

    /// The particle buffer that the next compute pass writes.
    pub open spec fn next(self) -> Buffer {
        Buffer::Particles((1 - self.generation) as usize)
    }

    /// The staging buffer that the next update writes.
    pub open spec fn staging(self) -> Buffer {
        Buffer::Staging(self.generation)
    }

    /// Size in bytes of a buffer of the simulation.
    pub open spec fn buffer_size(self, buffer: Buffer) -> int {
        match buffer {
            Buffer::Constants => CONSTANT_BUFFER_SIZE as int,
            Buffer::Vertices => self.capacity * VERTEX_SIZE,
            Buffer::Particles(_) => self.capacity * PARTICLE_SIZE,
            Buffer::Staging(_) => self.capacity * PARTICLE_SIZE + CONSTANT_BUFFER_SIZE,
        }
    }

    /// Thread groups that the compute pass is dispatched with: one for every
    /// full group of `THREAD_GROUP_SIZE` particles. Particles beyond the last
    /// full group are not advanced.
    pub open spec fn thread_groups(self) -> u32 {
        self.constants.num_particles / THREAD_GROUP_SIZE
    }

    /// What an update stages: the constants at offset 0, the rule table right
    /// after them and, on a reset, the fresh particles after the table.
    pub open spec fn staged(self, rules: Seq<Rule>, particles: Seq<Particle>) -> Seq<u8> {
        constants_bytes(self.constants) + rules_bytes(rules) + (if self.reset_pending {
            particles_bytes(particles)
        } else {
            Seq::empty()
        })
    }

    /// The copy of the staged constants into the constants buffer.
    pub open spec fn constants_upload(self) -> Command {
        Command::CopyBufferRegion {
            dst: Buffer::Constants,
            dst_offset: 0,
            src: self.staging(),
            src_offset: 0,
            num_bytes: SHADER_GLOBAL_CONSTANTS_SIZE as u64,
        }
    }

    /// The copy of the staged rule table into the constants buffer, behind
    /// the constants.
    pub open spec fn rules_upload(self) -> Command {
        Command::CopyBufferRegion {
            dst: Buffer::Constants,
            dst_offset: SHADER_GLOBAL_CONSTANTS_SIZE as u64,
            src: self.staging(),
            src_offset: SHADER_GLOBAL_CONSTANTS_SIZE as u64,
            num_bytes: RULES_SIZE as u64,
        }
    }

    /// The copy of the staged particles into the current particle buffer.
    pub open spec fn particles_upload(self) -> Command {
        Command::CopyBufferRegion {
            dst: self.current(),
            dst_offset: 0,
            src: self.staging(),
            src_offset: CONSTANT_BUFFER_SIZE as u64,
            num_bytes: (self.constants.num_particles * PARTICLE_SIZE) as u64,
        }
    }

    /// The copies that an update records: constants, rule table and, on a
    /// reset, particles.
    pub open spec fn uploads(self) -> Seq<Command> {
        if self.reset_pending {
            seq![self.constants_upload(), self.rules_upload(), self.particles_upload()]
        } else {
            seq![self.constants_upload(), self.rules_upload()]
        }
    }

    /// The compute pass that an update records after the copies: it reads the
    /// constants, the rule table and the current particles, and writes the
    /// next particles and the vertices.
    pub open spec fn compute_pass(self) -> Seq<Command> {
        seq![
            Command::SetComputeRootSignature,
            Command::SetPipelineState,
            Command::SetComputeRootConstantBufferView {
                root_parameter_index: 0,
                buffer: Buffer::Constants,
                offset: 0,
            },
            Command::SetComputeRootShaderResourceView {
                root_parameter_index: 1,
                buffer: Buffer::Constants,
                offset: SHADER_GLOBAL_CONSTANTS_SIZE as u64,
            },
            Command::SetComputeRootShaderResourceView {
                root_parameter_index: 2,
                buffer: self.current(),
                offset: 0,
            },
            Command::SetComputeRootUnorderedAccessView {
                root_parameter_index: 3,
                buffer: self.next(),
                offset: 0,
            },
            Command::SetComputeRootUnorderedAccessView {
                root_parameter_index: 4,
                buffer: Buffer::Vertices,
                offset: 0,
            },
            Command::Dispatch {
                thread_group_count_x: self.thread_groups(),
                thread_group_count_y: 1,
                thread_group_count_z: 1,
            },
        ]
    }

    /// Everything an update records, in recording order.
    pub open spec fn commands(self) -> Seq<Command> {
        self.uploads() + self.compute_pass()
    }

    /// The state after a reset was requested.
    pub open spec fn reset_requested(self) -> WorldView {
        WorldView { reset_pending: true, ..self }
    }

    /// The state after an update: no reset is pending, and the two
    /// generations have swapped roles.
    pub open spec fn updated(self) -> WorldView {
        WorldView { reset_pending: false, generation: (1 - self.generation) as usize, ..self }
    }

    /// The state after `count` updates.
    pub open spec fn updated_times(self, count: nat) -> WorldView
        decreases count,
    {
        if count == 0 {
            self
        } else {
            self.updated_times((count - 1) as nat).updated()
        }
    }
}

/// Ping-pong: the particle buffer that an update's compute pass writes is the
/// one that the following update's pass reads, the staging buffers take
/// turns in the same way, and after any number of updates the current
/// generation is the number of updates modulo two, counted from the
/// generation at the start.
pub proof fn lemma_roles_alternate(s: WorldView, count: nat)
    requires
        s.wf(),
    ensures
        s.updated().current() == s.next(),
        s.updated().next() == s.current(),
        s.updated().staging() != s.staging(),
        s.updated_times(count).wf(),
        s.updated_times(count).generation == (s.generation + count) % 2,
        s.updated_times(count + 2).current() == s.updated_times(count).current(),
        s.updated_times(count + 1).current() == s.updated_times(count).next(),
    decreases count,
{
    reveal_with_fuel(WorldView::updated_times, 3);
    if count > 0 {
        lemma_roles_alternate(s, (count - 1) as nat);
    }
}

/// The state after a reset was requested `count` times in a row.
pub open spec fn reset_requested_times(s: WorldView, count: nat) -> WorldView
    decreases count,
{
    if count == 0 {
        s
    } else {
        reset_requested_times(s, (count - 1) as nat).reset_requested()
    }
}

/// Requesting a reset several times before an update is the same as
/// requesting it once: the update then uploads fresh particles once, clears
/// the request, and the update after it uploads none.
pub proof fn lemma_reset_request_idempotent(s: WorldView, count: nat)
    requires
        count >= 1,
    ensures
        reset_requested_times(s, count) == s.reset_requested(),
        s.reset_requested().uploads() == seq![
            s.reset_requested().constants_upload(),
            s.reset_requested().rules_upload(),
            s.reset_requested().particles_upload(),
        ],
        !s.reset_requested().updated().reset_pending,
        s.reset_requested().updated().uploads() == seq![
            s.reset_requested().updated().constants_upload(),
            s.reset_requested().updated().rules_upload(),
        ],
    decreases count,
{
    reveal_with_fuel(reset_requested_times, 2);
    if count > 1 {
        lemma_reset_request_idempotent(s, (count - 1) as nat);
    }
}

/// The rule table reaches the compute pass whole: an update stages the
/// complete table right behind the constants, records one copy that covers
/// all of it, and records the only dispatch after that copy, as the last
/// command.
pub proof fn lemma_rules_upload_precedes_dispatch(s: WorldView, rules: Seq<Rule>, particles: Seq<Particle>)
    requires
        rules.len() == NUM_RULES,
    ensures
        s.staged(rules, particles).len() >= CONSTANT_BUFFER_SIZE,
        s.staged(rules, particles).subrange(
            SHADER_GLOBAL_CONSTANTS_SIZE as int,
            CONSTANT_BUFFER_SIZE as int,
        ) == rules_bytes(rules),
        s.commands()[1] == s.rules_upload(),
        s.commands().last() is Dispatch,
        forall|k: int|
            0 <= k < s.commands().len() && (#[trigger] s.commands()[k]) is Dispatch ==> 1 < k && k
                == s.commands().len() - 1,
{
    lemma_rules_bytes_len(rules);
    lemma_particles_bytes_len(particles);
    assert(constants_bytes(s.constants).len() == SHADER_GLOBAL_CONSTANTS_SIZE);
    assert(s.staged(rules, particles).subrange(
        SHADER_GLOBAL_CONSTANTS_SIZE as int,
        CONSTANT_BUFFER_SIZE as int,
    ) =~= rules_bytes(rules));
}

/// In what an update stages, the rule by which kind `a` acts on kind `b`
/// lies behind the constants at the place that the pair has in the table.
pub proof fn lemma_staged_rule_at(s: WorldView, rules: Seq<Rule>, particles: Seq<Particle>, a: nat, b: nat)
    requires
        rules.len() == NUM_RULES,
        a < PARTICLE_KIND_MAX,
        b < PARTICLE_KIND_MAX,
    ensures
        ({
            let index = a * PARTICLE_KIND_MAX + b;
            let at = SHADER_GLOBAL_CONSTANTS_SIZE + RULE_SIZE * index;
            &&& index < NUM_RULES
            &&& at + RULE_SIZE <= s.staged(rules, particles).len()
            &&& s.staged(rules, particles).subrange(at, at + RULE_SIZE) == rule_bytes(rules[index])
        }),
{
    let index = (a * PARTICLE_KIND_MAX + b) as int;
    let at = SHADER_GLOBAL_CONSTANTS_SIZE + RULE_SIZE * index;
    assert(index < NUM_RULES) by (nonlinear_arith)
        requires
            index == a * 8 + b,
            a < 8,
            b < 8,
    ;
    lemma_rules_bytes_at(rules, index);
    lemma_particles_bytes_len(particles);
    assert(constants_bytes(s.constants).len() == SHADER_GLOBAL_CONSTANTS_SIZE);
    assert(s.staged(rules, particles).subrange(at, at + RULE_SIZE) =~= rules_bytes(rules).subrange(
        12 * index,
        12 * index + 12,
    ));
}

/// The dispatch covers the particles in full thread groups: as many
/// particles as do not fill a group are left out, and none are if the number
/// of particles is a multiple of the group size.
pub proof fn lemma_thread_groups_cover(s: WorldView)
    ensures
        s.thread_groups() * THREAD_GROUP_SIZE + s.constants.num_particles % THREAD_GROUP_SIZE
            == s.constants.num_particles,
        s.constants.num_particles % THREAD_GROUP_SIZE == 0 ==> s.thread_groups() * THREAD_GROUP_SIZE
            == s.constants.num_particles,
{
}

/// The staging buffer that the frame with fence value `frame` writes, if
/// every frame runs one update and the first one writes staging buffer 0.
pub open spec fn staging_of_frame(frame: nat) -> usize
    recommends
        frame >= 1,
{
    ((frame - 1) % 2) as usize
}

/// The host never writes a staging buffer that the device may still read:
/// with as many frame slots as staging buffers, whenever a frame starts,
/// every earlier frame that wrote the staging buffer of the frame that
/// starts has completed.
pub proof fn lemma_staging_buffer_is_idle(manager: FrameManagerView, completed: nat, frame: nat)
    requires
        manager.wf(),
        !manager.started(),
        manager.frames.len() == NUM_STAGING_BUFFERS,
        manager.start_attempted(completed).started(),
        1 <= frame <= manager.submitted(),
        staging_of_frame(frame) == staging_of_frame(manager.submitted() + 1),
    ensures
        frame <= completed,
{
    lemma_pipelining_bound(manager, completed);
}

/// The simulation state.
pub struct World {
    shader_constants: ShaderGlobalConstants,
    reset_particles: bool,
    generation: usize,
    capacity: u32,
}

impl View for World {
    type V = WorldView;

    closed spec fn view(&self) -> WorldView {
        WorldView {
            constants: self.shader_constants,
            reset_pending: self.reset_particles,
            generation: self.generation,
            capacity: self.capacity,
        }
    }
}

impl World {
    /// The state's invariant. `new` establishes it and every method keeps it.
    pub open spec fn wf(&self) -> bool {
        self@.wf()
    }

    /// A world of `num_particles` particles in an area of `size`, with the
    /// default friction and force multiplier. The particles do not exist
    /// yet: a reset is pending, and the first update creates them.
    pub fn new(num_particles: usize, size: [u32; 2]) -> (world: World)
        requires
            num_particles <= u32::MAX,
            num_particles * PARTICLE_SIZE + CONSTANT_BUFFER_SIZE <= usize::MAX,
        ensures
            world.wf(),
            world@.constants.particle_type_max == PARTICLE_KIND_MAX,
            world@.constants.num_particles == num_particles,
            world@.constants.world_size == size,
            world@.constants.friction == DEFAULT_FRICTION,
            world@.constants.force_multiplier == DEFAULT_FORCE_MULTIPLIER,
            world@.reset_pending,
            world@.generation == 0,
            world@.capacity == num_particles,
    {
        let shader_constants = ShaderGlobalConstants {
            particle_type_max: PARTICLE_KIND_MAX,
            num_particles: num_particles as u32,
            world_size: size,
            friction: DEFAULT_FRICTION,
            force_multiplier: DEFAULT_FORCE_MULTIPLIER,
        };
        World { shader_constants, reset_particles: true, generation: 0, capacity: num_particles as u32 }
    }

    /// The constants, for the caller to adjust between updates. The next
    /// update stages them as they then are.
    pub fn settings(&mut self) -> (settings: &mut ShaderGlobalConstants)
        ensures
            *settings == old(self)@.constants,
            final(self)@ == (WorldView { constants: *final(settings), ..old(self)@ }),
    {
        &mut self.shader_constants
    }

    /// Requests that the next update replace all particles by fresh ones.
    /// Requesting it again before that update changes nothing.
    pub fn reset_particles(&mut self)
        ensures
            final(self)@ == old(self)@.reset_requested(),
    {
        self.reset_particles = true;
    }

    /// Whether the next update replaces the particles, and so needs fresh
    /// ones.
    pub fn reset_pending(&self) -> (pending: bool)
        ensures
            pending == self@.reset_pending,
    {
        self.reset_particles
    }

    /// The constants as the next update stages them.
    pub fn constants(&self) -> (constants: ShaderGlobalConstants)
        ensures
            constants == self@.constants,
    {
        self.shader_constants
    }

    /// Number of particles that the buffers were sized for.
    pub fn capacity(&self) -> (capacity: u32)
        ensures
            capacity == self@.capacity,
    {
        self.capacity
    }

    /// The particle buffer that the next compute pass reads.
    pub fn current_particles(&self) -> (buffer: Buffer)
        ensures
            buffer == self@.current(),
    {
        Buffer::Particles(self.generation)
    }

    /// The particle buffer that the next compute pass writes.
    pub fn next_particles(&self) -> (buffer: Buffer)
        requires
            self.wf(),
        ensures
            buffer == self@.next(),
    {
        Buffer::Particles(1 - self.generation)
    }

    /// The buffers to create for this world, in order: the vertices, the two
    /// particle buffers, the two staging buffers, the constants.
    pub fn buffers(&self) -> (buffers: Vec<BufferDesc>)
        requires
            self.wf(),
        ensures
            buffers@.len() == 6,
            buffers@[0].buffer == Buffer::Vertices,
            buffers@[1].buffer == Buffer::Particles(0),
            buffers@[2].buffer == Buffer::Particles(1),
            buffers@[3].buffer == Buffer::Staging(0),
            buffers@[4].buffer == Buffer::Staging(1),
            buffers@[5].buffer == Buffer::Constants,
            forall|i: int|
                0 <= i < 6 ==> {
                    &&& (#[trigger] buffers@[i]).size == self@.buffer_size(buffers@[i].buffer)
                    &&& buffers@[i].heap == (if buffers@[i].buffer is Staging {
                        HeapType::Upload
                    } else {
                        HeapType::Default
                    })
                },
    {
        let count: usize = self.capacity as usize;
        let particle_buffer_size: usize = count * PARTICLE_SIZE;
        let vertex_buffer_size: usize = count * VERTEX_SIZE;
        let staging_buffer_size: usize = particle_buffer_size + CONSTANT_BUFFER_SIZE;
        let mut buffers: Vec<BufferDesc> = Vec::new();
        buffers.push(BufferDesc { buffer: Buffer::Vertices, size: vertex_buffer_size, heap: HeapType::Default });
        buffers.push(
            BufferDesc { buffer: Buffer::Particles(0), size: particle_buffer_size, heap: HeapType::Default },
        );
        buffers.push(
            BufferDesc { buffer: Buffer::Particles(1), size: particle_buffer_size, heap: HeapType::Default },
        );
        buffers.push(BufferDesc { buffer: Buffer::Staging(0), size: staging_buffer_size, heap: HeapType::Upload });
        buffers.push(BufferDesc { buffer: Buffer::Staging(1), size: staging_buffer_size, heap: HeapType::Upload });
        buffers.push(
            BufferDesc { buffer: Buffer::Constants, size: CONSTANT_BUFFER_SIZE, heap: HeapType::Default },
        );
        buffers
    }

    /// Thread groups that the next compute pass is dispatched with.
    pub fn thread_groups(&self) -> (groups: u32)
        ensures
            groups == self@.thread_groups(),
    {
        self.shader_constants.num_particles / THREAD_GROUP_SIZE
    }

    /// Stages what the next compute pass needs and names the copies that
    /// bring it to the device.
    ///
    /// The constants and the whole rule table are staged every time; the
    /// particles only while a reset is pending, and then `particles` has to
    /// hold one particle for each of the world's particles. The staged bytes
    /// fit the staging buffer as long as the world holds no more particles
    /// than its buffers were sized for.
    pub fn update_buffers(&self, rules: &Rules, particles: &Vec<Particle>) -> (staged: (
        Vec<u8>,
        Vec<Command>,
    ))
        requires
            self.wf(),
            self@.constants.num_particles <= self@.capacity,
            self@.reset_pending ==> particles@.len() == self@.constants.num_particles,
        ensures
            staged.0@ == self@.staged(rules@, particles@),
            staged.0@.len() == CONSTANT_BUFFER_SIZE + (if self@.reset_pending {
                self@.constants.num_particles * PARTICLE_SIZE
            } else {
                0
            }),
            staged.0@.len() <= self@.buffer_size(self@.staging()),
            staged.1@ == self@.uploads(),
    {
        let staging = Buffer::Staging(self.generation);
        let mut bytes: Vec<u8> = Vec::new();
        let mut commands: Vec<Command> = Vec::new();

        let constants = self.shader_constants;
        push_u32(&mut bytes, constants.particle_type_max);
        push_u32(&mut bytes, constants.num_particles);
        push_u32(&mut bytes, constants.world_size[0]);
        push_u32(&mut bytes, constants.world_size[1]);
        push_u32(&mut bytes, constants.friction);
        push_u32(&mut bytes, constants.force_multiplier);
        assert(bytes@ =~= constants_bytes(self@.constants));
        commands.push(
            Command::CopyBufferRegion {
                dst: Buffer::Constants,
                dst_offset: 0,
                src: staging,
                src_offset: 0,
                num_bytes: SHADER_GLOBAL_CONSTANTS_SIZE as u64,
            },
        );

        rules.encode(&mut bytes);
        commands.push(
            Command::CopyBufferRegion {
                dst: Buffer::Constants,
                dst_offset: SHADER_GLOBAL_CONSTANTS_SIZE as u64,
                src: staging,
                src_offset: SHADER_GLOBAL_CONSTANTS_SIZE as u64,
                num_bytes: RULES_SIZE as u64,
            },
        );
        proof {
            rules.lemma_len();
            lemma_rules_bytes_len(rules@);
            lemma_particles_bytes_len(particles@);
        }

        if self.reset_particles {
            encode_particles(particles, &mut bytes);
            let num_bytes: u64 = (constants.num_particles as u64) * (PARTICLE_SIZE as u64);
            commands.push(
                Command::CopyBufferRegion {
                    dst: Buffer::Particles(self.generation),
                    dst_offset: 0,
                    src: staging,
                    src_offset: CONSTANT_BUFFER_SIZE as u64,
                    num_bytes,
                },
            );
        }
        assert(bytes@ =~= self@.staged(rules@, particles@));
        assert(commands@ =~= self@.uploads());
        (bytes, commands)
    }

    /// Advances the simulation by one tick.
    ///
    /// The result holds the bytes to write at the start of the staging buffer
    /// of this generation and the commands to record after that: the copies
    /// of what was staged, then the compute pass that reads the current
    /// particle buffer and writes the next one. After the call no reset is
    /// pending and the two generations have swapped roles.
    pub fn update(&mut self, rules: &Rules, particles: &Vec<Particle>) -> (tick: Tick)
        requires
            old(self).wf(),
            old(self)@.constants.num_particles <= old(self)@.capacity,
            old(self)@.reset_pending ==> particles@.len() == old(self)@.constants.num_particles,
        ensures
            final(self).wf(),
            final(self)@ == old(self)@.updated(),
            tick.staging == old(self)@.staging(),
            tick.staged@ == old(self)@.staged(rules@, particles@),
            tick.staged@.len() == CONSTANT_BUFFER_SIZE + (if old(self)@.reset_pending {
                old(self)@.constants.num_particles * PARTICLE_SIZE
            } else {
                0
            }),
            tick.staged@.len() <= old(self)@.buffer_size(old(self)@.staging()),
            tick.commands@ == old(self)@.commands(),
    {
        let (staged, mut commands) = self.update_buffers(rules, particles);
        self.reset_particles = false;

        let current = Buffer::Particles(self.generation);
        let next = Buffer::Particles(1 - self.generation);
        commands.push(Command::SetComputeRootSignature);
        commands.push(Command::SetPipelineState);
        commands.push(
            Command::SetComputeRootConstantBufferView {
                root_parameter_index: 0,
                buffer: Buffer::Constants,
                offset: 0,
            },
        );
        commands.push(
            Command::SetComputeRootShaderResourceView {
                root_parameter_index: 1,
                buffer: Buffer::Constants,
                offset: SHADER_GLOBAL_CONSTANTS_SIZE as u64,
            },
        );
        commands.push(
            Command::SetComputeRootShaderResourceView { root_parameter_index: 2, buffer: current, offset: 0 },
        );
        commands.push(
            Command::SetComputeRootUnorderedAccessView { root_parameter_index: 3, buffer: next, offset: 0 },
        );
        commands.push(
            Command::SetComputeRootUnorderedAccessView {
                root_parameter_index: 4,
                buffer: Buffer::Vertices,
                offset: 0,
            },
        );
        commands.push(
            Command::Dispatch {
                thread_group_count_x: self.shader_constants.num_particles / THREAD_GROUP_SIZE,
                thread_group_count_y: 1,
                thread_group_count_z: 1,
            },
        );
        assert(commands@ =~= old(self)@.commands());

        let staging = Buffer::Staging(self.generation);
        self.generation = 1 - self.generation;
        Tick { staging, staged, commands }
    }

    /// The buffer that holds the vertices of the last update, and how many
    /// of them are valid: one for each particle.
    pub fn get_vertex_buffer(&self) -> (vertices: (Buffer, u32))
        ensures
            vertices.0 == Buffer::Vertices,
            vertices.1 == self@.constants.num_particles,
    {
        (Buffer::Vertices, self.shader_constants.num_particles)
    }
}

} // verus!
