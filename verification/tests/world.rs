use dplife::particle_life::layout::CONSTANT_BUFFER_SIZE;
use dplife::particle_life::layout::NUM_RULES;
use dplife::particle_life::layout::PARTICLE_KIND_MAX;
use dplife::particle_life::layout::PARTICLE_SIZE;
use dplife::particle_life::layout::RULES_SIZE;
use dplife::particle_life::layout::RULE_SIZE;
use dplife::particle_life::layout::SHADER_GLOBAL_CONSTANTS_SIZE;
use dplife::particle_life::layout::VERTEX_SIZE;
use dplife::particle_life::layout::push_u32;
use dplife::particle_life::particle::encode_particles;
use dplife::particle_life::world::DEFAULT_FORCE_MULTIPLIER;
use dplife::particle_life::world::DEFAULT_FRICTION;
use dplife::particle_life::Buffer;
use dplife::particle_life::BufferDesc;
use dplife::particle_life::Command;
use dplife::particle_life::Particle;
use dplife::particle_life::ParticleKind;
use dplife::particle_life::Rule;
use dplife::particle_life::Rules;
use dplife::particle_life::World;
use dplife::d3dx12::HeapType;

fn bits(x: f32) -> u32 {
    x.to_bits()
}

fn sample_rules() -> Rules {
    let mut rules = [Rule { force: 0, min_distance: 0, max_distance: 0 }; NUM_RULES];
    for (i, rule) in rules.iter_mut().enumerate() {
        let i = i as f32;
        *rule = Rule { force: bits(0.5 + i), min_distance: bits(30.0 + i), max_distance: bits(100.0 + i) };
    }
    Rules::new(rules)
}

fn sample_particles(count: usize) -> Vec<Particle> {
    (0..count)
        .map(|i| {
            let kind = ParticleKind::new((i as u32) % PARTICLE_KIND_MAX).unwrap();
            Particle::with_kind([bits(i as f32), bits(2.0 * i as f32)], kind)
        })
        .collect()
}

fn compute_pass(current: usize, groups: u32) -> Vec<Command> {
    vec![
        Command::SetComputeRootSignature,
        Command::SetPipelineState,
        Command::SetComputeRootConstantBufferView { root_parameter_index: 0, buffer: Buffer::Constants, offset: 0 },
        Command::SetComputeRootShaderResourceView { root_parameter_index: 1, buffer: Buffer::Constants, offset: 24 },
        Command::SetComputeRootShaderResourceView {
            root_parameter_index: 2,
            buffer: Buffer::Particles(current),
            offset: 0,
        },
        Command::SetComputeRootUnorderedAccessView {
            root_parameter_index: 3,
            buffer: Buffer::Particles(1 - current),
            offset: 0,
        },
        Command::SetComputeRootUnorderedAccessView { root_parameter_index: 4, buffer: Buffer::Vertices, offset: 0 },
        Command::Dispatch { thread_group_count_x: groups, thread_group_count_y: 1, thread_group_count_z: 1 },
    ]
}

fn copy(dst: Buffer, dst_offset: u64, src: Buffer, src_offset: u64, num_bytes: u64) -> Command {
    Command::CopyBufferRegion { dst, dst_offset, src, src_offset, num_bytes }
}

#[test]
fn layout_sizes_match_the_structures() {
    assert_eq!(SHADER_GLOBAL_CONSTANTS_SIZE, 6 * 4);
    assert_eq!(RULE_SIZE, 3 * 4);
    assert_eq!(NUM_RULES, (PARTICLE_KIND_MAX * PARTICLE_KIND_MAX) as usize);
    assert_eq!(RULES_SIZE, RULE_SIZE * NUM_RULES);
    assert_eq!(CONSTANT_BUFFER_SIZE, SHADER_GLOBAL_CONSTANTS_SIZE + RULES_SIZE);
    assert_eq!(PARTICLE_SIZE, 5 * 4);
    assert_eq!(VERTEX_SIZE, 3 * 4);
}

#[test]
fn push_u32_is_little_endian() {
    let mut bytes = vec![9u8];
    push_u32(&mut bytes, 0x1234_5678);
    push_u32(&mut bytes, 1);
    assert_eq!(bytes, vec![9, 0x78, 0x56, 0x34, 0x12, 1, 0, 0, 0]);
    let mut bytes = Vec::new();
    push_u32(&mut bytes, bits(0.9));
    assert_eq!(bytes, 0.9f32.to_le_bytes().to_vec());
}

#[test]
fn new_world_awaits_its_first_particles() {
    let world = World::new(64, [bits(3072.0), bits(2304.0)]);
    let constants = world.constants();
    assert_eq!(constants.particle_type_max, 8);
    assert_eq!(constants.num_particles, 64);
    assert_eq!(constants.world_size, [bits(3072.0), bits(2304.0)]);
    assert_eq!(constants.friction, bits(0.9));
    assert_eq!(constants.force_multiplier, bits(0.05));
    assert_eq!(DEFAULT_FRICTION, bits(0.9));
    assert_eq!(DEFAULT_FORCE_MULTIPLIER, bits(0.05));
    assert!(world.reset_pending());
    assert_eq!(world.capacity(), 64);
    assert_eq!(world.current_particles(), Buffer::Particles(0));
    assert_eq!(world.next_particles(), Buffer::Particles(1));
    assert_eq!(world.get_vertex_buffer(), (Buffer::Vertices, 64));
}

#[test]
fn world_buffers_are_sized_for_its_particles() {
    let world = World::new(50000, [0, 0]);
    assert_eq!(
        world.buffers(),
        vec![
            BufferDesc { buffer: Buffer::Vertices, size: 600_000, heap: HeapType::Default },
            BufferDesc { buffer: Buffer::Particles(0), size: 1_000_000, heap: HeapType::Default },
            BufferDesc { buffer: Buffer::Particles(1), size: 1_000_000, heap: HeapType::Default },
            BufferDesc { buffer: Buffer::Staging(0), size: 1_000_792, heap: HeapType::Upload },
            BufferDesc { buffer: Buffer::Staging(1), size: 1_000_792, heap: HeapType::Upload },
            BufferDesc { buffer: Buffer::Constants, size: 792, heap: HeapType::Default },
        ]
    );
}

#[test]
fn dispatch_covers_full_thread_groups_only() {
    assert_eq!(World::new(64, [0, 0]).thread_groups(), 2);
    assert_eq!(World::new(65, [0, 0]).thread_groups(), 2);
    assert_eq!(World::new(31, [0, 0]).thread_groups(), 0);
    assert_eq!(World::new(32, [0, 0]).thread_groups(), 1);
    assert_eq!(World::new(50000, [0, 0]).thread_groups(), 1562);

    let mut world = World::new(65, [0, 0]);
    let tick = world.update(&sample_rules(), &sample_particles(65));
    assert_eq!(
        tick.commands.last(),
        Some(&Command::Dispatch { thread_group_count_x: 2, thread_group_count_y: 1, thread_group_count_z: 1 })
    );
}

#[test]
fn first_update_stages_constants_rules_and_particles() {
    let size = [bits(300.0), bits(200.0)];
    let mut world = World::new(64, size);
    let rules = sample_rules();
    let particles = sample_particles(64);
    let tick = world.update(&rules, &particles);

    assert_eq!(tick.staging, Buffer::Staging(0));
    assert_eq!(tick.staged.len(), 792 + 64 * 20);

    let mut expected: Vec<u8> = Vec::new();
    expected.extend_from_slice(&8u32.to_le_bytes());
    expected.extend_from_slice(&64u32.to_le_bytes());
    expected.extend_from_slice(&300.0f32.to_le_bytes());
    expected.extend_from_slice(&200.0f32.to_le_bytes());
    expected.extend_from_slice(&0.9f32.to_le_bytes());
    expected.extend_from_slice(&0.05f32.to_le_bytes());
    for i in 0..64 {
        let i = i as f32;
        expected.extend_from_slice(&(0.5 + i).to_le_bytes());
        expected.extend_from_slice(&(30.0 + i).to_le_bytes());
        expected.extend_from_slice(&(100.0 + i).to_le_bytes());
    }
    assert_eq!(expected.len(), 792);
    for i in 0..64u32 {
        expected.extend_from_slice(&(i as f32).to_le_bytes());
        expected.extend_from_slice(&(2.0 * i as f32).to_le_bytes());
        expected.extend_from_slice(&0.0f32.to_le_bytes());
        expected.extend_from_slice(&0.0f32.to_le_bytes());
        expected.extend_from_slice(&(i % 8).to_le_bytes());
    }
    assert_eq!(tick.staged, expected);

    let mut commands = vec![
        copy(Buffer::Constants, 0, Buffer::Staging(0), 0, 24),
        copy(Buffer::Constants, 24, Buffer::Staging(0), 24, 768),
        copy(Buffer::Particles(0), 0, Buffer::Staging(0), 792, 1280),
    ];
    commands.extend(compute_pass(0, 2));
    assert_eq!(tick.commands, commands);

    assert!(!world.reset_pending());
    assert_eq!(world.current_particles(), Buffer::Particles(1));
    assert_eq!(world.next_particles(), Buffer::Particles(0));
}

#[test]
fn steady_update_stages_constants_and_rules_only() {
    let mut world = World::new(64, [0, 0]);
    let rules = sample_rules();
    world.update(&rules, &sample_particles(64));

    let tick = world.update(&rules, &Vec::new());
    assert_eq!(tick.staging, Buffer::Staging(1));
    assert_eq!(tick.staged.len(), 792);
    let mut commands = vec![
        copy(Buffer::Constants, 0, Buffer::Staging(1), 0, 24),
        copy(Buffer::Constants, 24, Buffer::Staging(1), 24, 768),
    ];
    commands.extend(compute_pass(1, 2));
    assert_eq!(tick.commands, commands);
    assert!(!world.reset_pending());
    assert_eq!(world.current_particles(), Buffer::Particles(0));
}

#[test]
fn particles_passed_without_a_pending_reset_are_not_staged() {
    let mut world = World::new(32, [0, 0]);
    let rules = sample_rules();
    world.update(&rules, &sample_particles(32));
    let tick = world.update(&rules, &sample_particles(32));
    assert_eq!(tick.staged.len(), 792);
    assert_eq!(tick.commands.len(), 10);
}

#[test]
fn roles_alternate_with_period_two() {
    let mut world = World::new(32, [0, 0]);
    let rules = sample_rules();
    let mut particles = sample_particles(32);
    for tick_number in 0..10usize {
        let current = tick_number % 2;
        assert_eq!(world.current_particles(), Buffer::Particles(current));
        assert_eq!(world.next_particles(), Buffer::Particles(1 - current));
        let written = world.next_particles();
        let tick = world.update(&rules, &particles);
        particles = Vec::new();
        assert_eq!(tick.staging, Buffer::Staging(current));
        assert_eq!(world.current_particles(), written);
    }
}

#[test]
fn repeated_reset_requests_regenerate_once() {
    let rules = sample_rules();
    let mut once = World::new(32, [0, 0]);
    let mut thrice = World::new(32, [0, 0]);
    once.update(&rules, &sample_particles(32));
    thrice.update(&rules, &sample_particles(32));
    assert!(!once.reset_pending());

    once.reset_particles();
    thrice.reset_particles();
    thrice.reset_particles();
    thrice.reset_particles();
    assert!(once.reset_pending());
    assert!(thrice.reset_pending());

    let particles = sample_particles(32);
    let a = once.update(&rules, &particles);
    let b = thrice.update(&rules, &particles);
    assert_eq!(a.staged, b.staged);
    assert_eq!(a.commands, b.commands);
    assert_eq!(a.commands.len(), 11);
    assert_eq!(a.commands[2], copy(Buffer::Particles(1), 0, Buffer::Staging(1), 792, 640));
    assert!(!once.reset_pending());
    assert!(!thrice.reset_pending());

    let after = thrice.update(&rules, &Vec::new());
    assert_eq!(after.commands.len(), 10);
    assert_eq!(after.staged.len(), 792);
}

#[test]
fn replaced_rules_are_staged_whole_before_the_dispatch() {
    let mut world = World::new(32, [0, 0]);
    world.update(&sample_rules(), &sample_particles(32));

    let replaced = Rules::new([Rule { force: 1, min_distance: 2, max_distance: 3 }; NUM_RULES]);
    let tick = world.update(&replaced, &Vec::new());
    let mut table: Vec<u8> = Vec::new();
    for _ in 0..NUM_RULES {
        table.extend_from_slice(&[1, 0, 0, 0, 2, 0, 0, 0, 3, 0, 0, 0]);
    }
    assert_eq!(&tick.staged[24..792], table.as_slice());

    let upload = tick
        .commands
        .iter()
        .position(|c| *c == copy(Buffer::Constants, 24, Buffer::Staging(1), 24, 768))
        .unwrap();
    let dispatches: Vec<usize> = tick
        .commands
        .iter()
        .enumerate()
        .filter(|(_, c)| matches!(c, Command::Dispatch { .. }))
        .map(|(i, _)| i)
        .collect();
    assert_eq!(dispatches, vec![tick.commands.len() - 1]);
    assert!(upload < dispatches[0]);
}

#[test]
fn settings_are_staged_as_adjusted() {
    let mut world = World::new(32, [0, 0]);
    world.settings().friction = bits(0.5);
    world.settings().force_multiplier = bits(0.01);
    assert_eq!(world.constants().friction, bits(0.5));
    assert!(world.reset_pending());
    let tick = world.update(&sample_rules(), &sample_particles(32));
    assert_eq!(&tick.staged[16..20], &0.5f32.to_le_bytes());
    assert_eq!(&tick.staged[20..24], &0.01f32.to_le_bytes());
}

#[test]
fn fewer_particles_than_capacity_use_less_of_the_staging_buffer() {
    let mut world = World::new(64, [0, 0]);
    world.settings().num_particles = 32;
    let tick = world.update(&sample_rules(), &sample_particles(32));
    assert_eq!(tick.staged.len(), 792 + 32 * 20);
    assert_eq!(tick.commands[2], copy(Buffer::Particles(0), 0, Buffer::Staging(0), 792, 640));
    assert_eq!(world.get_vertex_buffer(), (Buffer::Vertices, 32));
    assert_eq!(world.capacity(), 64);
}

#[test]
fn empty_world_stages_no_particles() {
    let mut world = World::new(0, [0, 0]);
    let tick = world.update(&sample_rules(), &Vec::new());
    assert_eq!(tick.staged.len(), 792);
    assert_eq!(tick.commands[2], copy(Buffer::Particles(0), 0, Buffer::Staging(0), 792, 0));
    assert_eq!(world.thread_groups(), 0);
}

#[test]
fn rule_table_is_indexed_by_pair_of_kinds() {
    let rules = sample_rules();
    let kind = |k: u32| ParticleKind::new(k).unwrap();
    assert_eq!(rules.get_rule(kind(0), kind(0)).force, bits(0.5));
    assert_eq!(rules.get_rule(kind(0), kind(7)).force, bits(7.5));
    assert_eq!(rules.get_rule(kind(1), kind(0)).force, bits(8.5));
    assert_eq!(rules.get_rule(kind(7), kind(7)).force, bits(63.5));
    assert_eq!(
        *rules.get_rule(kind(3), kind(5)),
        Rule { force: bits(29.5), min_distance: bits(59.0), max_distance: bits(129.0) }
    );
}

#[test]
fn rules_encode_in_table_order() {
    let rules = sample_rules();
    let mut bytes = vec![0xaa];
    rules.encode(&mut bytes);
    assert_eq!(bytes.len(), 1 + 768);
    assert_eq!(&bytes[1..5], &0.5f32.to_le_bytes());
    assert_eq!(&bytes[5..9], &30.0f32.to_le_bytes());
    assert_eq!(&bytes[9..13], &100.0f32.to_le_bytes());
    assert_eq!(&bytes[1 + 63 * 12..1 + 63 * 12 + 4], &63.5f32.to_le_bytes());
}

#[test]
fn particle_kinds_are_below_the_maximum() {
    assert!(ParticleKind::new(0).is_some());
    assert_eq!(ParticleKind::new(7).unwrap().value(), 7);
    assert!(ParticleKind::new(8).is_none());
    assert!(ParticleKind::new(u32::MAX).is_none());
}

#[test]
fn random_kinds_stay_in_range_and_vary() {
    let mut seen = [false; 8];
    for _ in 0..2000 {
        let kind = ParticleKind::random().value();
        assert!(kind < PARTICLE_KIND_MAX);
        seen[kind as usize] = true;
    }
    assert!(seen.iter().all(|s| *s));
}

#[test]
fn new_particles_rest_where_they_are_put() {
    let position = [bits(12.5), bits(99.0)];
    let particle = Particle::new(position);
    assert_eq!(particle.position, position);
    assert_eq!(particle.velocity, [bits(0.0), bits(0.0)]);
    assert!(particle.kind.value() < PARTICLE_KIND_MAX);

    let positions: Vec<[u32; 2]> = (0..100).map(|i| [bits(i as f32), bits(-(i as f32))]).collect();
    let particles = Particle::scatter(&positions);
    assert_eq!(particles.len(), 100);
    for (particle, position) in particles.iter().zip(positions.iter()) {
        assert_eq!(particle.position, *position);
        assert_eq!(particle.velocity, [0, 0]);
        assert!(particle.kind.value() < PARTICLE_KIND_MAX);
    }
    assert!(Particle::scatter(&Vec::new()).is_empty());
}

#[test]
fn particles_encode_position_velocity_kind() {
    let particle = Particle::with_kind([bits(1.0), bits(2.0)], ParticleKind::new(5).unwrap());
    let mut bytes = Vec::new();
    particle.encode(&mut bytes);
    let mut expected = Vec::new();
    expected.extend_from_slice(&1.0f32.to_le_bytes());
    expected.extend_from_slice(&2.0f32.to_le_bytes());
    expected.extend_from_slice(&[0; 8]);
    expected.extend_from_slice(&5u32.to_le_bytes());
    assert_eq!(bytes, expected);

    let mut all = Vec::new();
    encode_particles(&vec![particle, particle], &mut all);
    expected.extend_from_within(..);
    assert_eq!(all, expected);
}

#[test]
fn scattered_particles_feed_a_reset() {
    let mut world = World::new(32, [bits(100.0), bits(100.0)]);
    let positions: Vec<[u32; 2]> = (0..32).map(|i| [bits(i as f32), bits(i as f32)]).collect();
    let particles = Particle::scatter(&positions);
    let tick = world.update(&sample_rules(), &particles);
    assert_eq!(tick.staged.len(), 792 + 32 * 20);
    for i in 0..32usize {
        let at = 792 + 20 * i;
        assert_eq!(&tick.staged[at..at + 4], &(i as f32).to_le_bytes());
        let kind = u32::from_le_bytes([
            tick.staged[at + 16],
            tick.staged[at + 17],
            tick.staged[at + 18],
            tick.staged[at + 19],
        ]);
        assert_eq!(kind, particles[i].kind.value());
        assert!(kind < 8);
    }
}
