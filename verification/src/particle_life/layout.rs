//! Memory layout of what the simulation exchanges with the device.
//!
//! Every field is 32 bits wide and stored little endian, fields in declaration
//! order without padding. A floating-point field is held as its IEEE 754 bit
//! pattern: the library places such values in memory and never computes with
//! them.

use vstd::prelude::*;

verus! {

/// Number of particle kinds. The interaction rule table has one entry for
/// each ordered pair of kinds.
pub const PARTICLE_KIND_MAX: u32 = 8;

/// Number of entries of the interaction rule table.
pub const NUM_RULES: usize = 64;

/// Bytes of the shader's global constants.
pub const SHADER_GLOBAL_CONSTANTS_SIZE: usize = 24;

/// Bytes of one interaction rule.
pub const RULE_SIZE: usize = 12;

/// Bytes of the interaction rule table.
pub const RULES_SIZE: usize = 768;

/// Bytes of the constants buffer: the global constants, then the rule table.
pub const CONSTANT_BUFFER_SIZE: usize = 792;

/// Bytes of one particle.
pub const PARTICLE_SIZE: usize = 20;

/// Bytes of one output vertex.
pub const VERTEX_SIZE: usize = 12;

/// Number of staging buffers, used in turn from one update to the next.
pub const NUM_STAGING_BUFFERS: usize = 2;

/// Particles that one thread group of the compute pass advances.
pub const THREAD_GROUP_SIZE: u32 = 32;

/// The four bytes of `x`, least significant first.
pub open spec fn u32_le_bytes(x: u32) -> Seq<u8> {
    seq![
        (x & 0xff) as u8,
        ((x >> 8) & 0xff) as u8,
        ((x >> 16) & 0xff) as u8,
        ((x >> 24) & 0xff) as u8,
    ]
}

/// The bytes are the base-256 digits of `x`.
pub proof fn lemma_u32_le_bytes_digits(x: u32)
    ensures
        u32_le_bytes(x).len() == 4,
        u32_le_bytes(x)[0] == x % 256,
        u32_le_bytes(x)[1] == (x / 256) % 256,
        u32_le_bytes(x)[2] == (x / 65536) % 256,
        u32_le_bytes(x)[3] == x / 16777216,
        x == u32_le_bytes(x)[0] + 256 * u32_le_bytes(x)[1] + 65536 * u32_le_bytes(x)[2] + 16777216
            * u32_le_bytes(x)[3],
{
    assert(x & 0xff == x % 256) by (bit_vector);
    assert((x >> 8) & 0xff == (x / 256) % 256) by (bit_vector);
    assert((x >> 16) & 0xff == (x / 65536) % 256) by (bit_vector);
    assert((x >> 24) & 0xff == x / 16777216) by (bit_vector);
}

/// Appends the four bytes of `x`, least significant first.
pub fn push_u32(bytes: &mut Vec<u8>, x: u32)
    ensures
        final(bytes)@ == old(bytes)@ + u32_le_bytes(x),
{
    assert(x & 0xff < 256) by (bit_vector);
    assert((x >> 8) & 0xff < 256) by (bit_vector);
    assert((x >> 16) & 0xff < 256) by (bit_vector);
    assert((x >> 24) & 0xff < 256) by (bit_vector);
    bytes.push((x & 0xff) as u8);
    bytes.push(((x >> 8) & 0xff) as u8);
    bytes.push(((x >> 16) & 0xff) as u8);
    bytes.push(((x >> 24) & 0xff) as u8);
    assert(bytes@ =~= old(bytes)@ + u32_le_bytes(x));
}

} // verus!
