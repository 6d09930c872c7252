//! Deterministic integer derivations from ids and seeds: the prespawn hash
//! that matches a client's predicted bullet to the server's, the world
//! generator's random stream, and per-player colour hues and spawn slots.

use vstd::prelude::*;
use crate::protocol::Team;
use vstd::arithmetic::div_mod::{lemma_mul_mod_noop_left, lemma_mul_mod_noop_right, lemma_small_mod};
use vstd::arithmetic::mul::lemma_mul_is_associative;

verus! {

/// The SplitMix64 finalizer.
pub open spec fn spec_splitmix64(x: u64) -> u64 {
    let a = (x ^ (x >> 30u64)).wrapping_mul(0xbf58_476d_1ce4_e5b9u64);
    let b = (a ^ (a >> 27u64)).wrapping_mul(0x94d0_49bb_1331_11ebu64);
    b ^ (b >> 31u64)
}

/// The prespawn hash of a bullet fired by `owner` on `tick`.
pub open spec fn spec_bullet_prespawn_hash(owner: u64, tick: u16) -> u64 {
    spec_splitmix64(owner ^ ((tick as u64) << 32u64) ^ (tick as u64))
}

/// A bullet is identified by its owner and the tick it was fired on: the
/// client's prespawned bullet and the server's authoritative one compute
/// the same hash (SplitMix64 of owner, tick and tick shifted up 32 bits).
pub fn bullet_prespawn_hash(owner: u64, tick: u16) -> (r: u64)
    ensures
        r == spec_bullet_prespawn_hash(owner, tick),
{
    let t = tick as u64;
    let x = owner ^ (t << 32u64) ^ t;
    let a = (x ^ (x >> 30u64)).wrapping_mul(0xbf58_476d_1ce4_e5b9u64);
    let b = (a ^ (a >> 27u64)).wrapping_mul(0x94d0_49bb_1331_11ebu64);
    b ^ (b >> 31u64)
}

/// 2^64, the modulus of 64-bit wrapping arithmetic.
pub open spec fn modulus64() -> int {
    0x1_0000_0000_0000_0000
}

/// Multiplying by `c` modulo 2^64 is undone by multiplying by its inverse.
proof fn lemma_wrapping_mul_inverse(x: u64, c: u64, ci: u64)
    requires
        (c as int * ci as int) % modulus64() == 1,
    ensures
        x.wrapping_mul(c).wrapping_mul(ci) == x,
{
    let m = modulus64();
    let xc = x as int * c as int;
    lemma_mul_mod_noop_left(xc, ci as int, m);
    lemma_mul_is_associative(x as int, c as int, ci as int);
    lemma_mul_mod_noop_right(x as int, c as int * ci as int, m);
    lemma_small_mod(x as nat, m as nat);
    assert(x.wrapping_mul(c) as int == xc % m);
}

/// The three xorshift steps of the finalizer are undone by repeating the
/// shift until it runs off the word.
proof fn lemma_xorshifts_invertible(x: u64)
    ensures
        ({
            let y = x ^ (x >> 30u64);
            y ^ (y >> 30u64) ^ (y >> 60u64) == x
        }),
        ({
            let y = x ^ (x >> 27u64);
            y ^ (y >> 27u64) ^ (y >> 54u64) == x
        }),
        ({
            let y = x ^ (x >> 31u64);
            y ^ (y >> 31u64) ^ (y >> 62u64) == x
        }),
{
    assert({
        let y = x ^ (x >> 30u64);
        y ^ (y >> 30u64) ^ (y >> 60u64) == x
    }) by (bit_vector);
    assert({
        let y = x ^ (x >> 27u64);
        y ^ (y >> 27u64) ^ (y >> 54u64) == x
    }) by (bit_vector);
    assert({
        let y = x ^ (x >> 31u64);
        y ^ (y >> 31u64) ^ (y >> 62u64) == x
    }) by (bit_vector);
}

/// The inverse of the SplitMix64 finalizer.
pub open spec fn spec_unmix64(h: u64) -> u64 {
    let b = h ^ (h >> 31u64) ^ (h >> 62u64);
    let s2 = b.wrapping_mul(0x319642b2d24d8ec3u64);
    let a = s2 ^ (s2 >> 27u64) ^ (s2 >> 54u64);
    let s1 = a.wrapping_mul(0x96de1b173f119089u64);
    s1 ^ (s1 >> 30u64) ^ (s1 >> 60u64)
}

/// The SplitMix64 finalizer is a bijection: `spec_unmix64` undoes it.
pub proof fn lemma_splitmix64_invertible(x: u64)
    ensures
        spec_unmix64(spec_splitmix64(x)) == x,
{
    let s1 = x ^ (x >> 30u64);
    let a = s1.wrapping_mul(0xbf58_476d_1ce4_e5b9u64);
    let s2 = a ^ (a >> 27u64);
    let b = s2.wrapping_mul(0x94d0_49bb_1331_11ebu64);
    lemma_xorshifts_invertible(x);
    lemma_xorshifts_invertible(a);
    lemma_xorshifts_invertible(b);
    assert(0xbf58_476d_1ce4_e5b9u64 as int * 0x96de1b173f119089u64 as int % modulus64() == 1);
    assert(0x94d0_49bb_1331_11ebu64 as int * 0x319642b2d24d8ec3u64 as int % modulus64() == 1);
    lemma_wrapping_mul_inverse(s1, 0xbf58_476d_1ce4_e5b9u64, 0x96de1b173f119089u64);
    lemma_wrapping_mul_inverse(s2, 0x94d0_49bb_1331_11ebu64, 0x319642b2d24d8ec3u64);
}

/// Bullets of one owner never share a prespawn hash: two different ticks
/// (of the 16-bit tick counter) give two different hashes.
pub proof fn lemma_prespawn_hash_unique(owner: u64, t1: u16, t2: u16)
    requires
        t1 != t2,
    ensures
        spec_bullet_prespawn_hash(owner, t1) != spec_bullet_prespawn_hash(owner, t2),
{
    let a = t1 as u64;
    let b = t2 as u64;
    let x1 = owner ^ (a << 32u64) ^ a;
    let x2 = owner ^ (b << 32u64) ^ b;
    assert(a < 65536 && b < 65536 && a != b ==> (owner ^ (a << 32u64) ^ a) != (owner ^ (b << 32u64)
        ^ b)) by (bit_vector);
    lemma_splitmix64_invertible(x1);
    lemma_splitmix64_invertible(x2);
}

/// The world generator's pseudo-random stream (a 64-bit LCG).
#[derive(Debug, Clone, Copy, PartialEq, Eq, Structural)]
pub struct Lcg(pub u64);

/// The LCG's next state.
pub open spec fn spec_lcg_next(state: u64) -> u64 {
    state.wrapping_mul(6364136223846793005u64).wrapping_add(1442695040888963407u64)
}

impl Lcg {
    /// Advance the stream and return its top 24 bits (a uniform fraction
    /// once divided by 2^24).
    pub fn next_bits(&mut self) -> (r: u32)
        ensures
            final(self).0 == spec_lcg_next(old(self).0),
            r == final(self).0 >> 40u64,
            r < 0x100_0000,
    {
        let s: u64 = self.0.wrapping_mul(6364136223846793005u64).wrapping_add(1442695040888963407u64);
        self.0 = s;
        let top: u64 = s >> 40u64;
        assert(top < 0x100_0000) by (bit_vector)
            requires
                top == s >> 40u64,
        ;
        top as u32
    }
}

/// A player's colour hue in degrees: the team's base hue (Blue 210, Red
/// 350) spread by up to 40 degrees either way from the id.
pub open spec fn spec_player_hue(client_id: u64, team: Team) -> int {
    let base: int = match team {
        Team::Blue => 210,
        Team::Red => 350,
    };
    let spread = (client_id.wrapping_mul(47u64) % 80) as int - 40;
    (base + spread) % 360
}

/// A player's colour hue in degrees, within its team's hue band.
pub fn player_hue(client_id: u64, team: Team) -> (r: u16)
    ensures
        r == spec_player_hue(client_id, team),
        r < 360,
{
    let base: u64 = match team {
        Team::Blue => 210,
        Team::Red => 350,
    };
    let spread: u64 = client_id.wrapping_mul(47u64) % 80;
    ((base + spread + 320) % 360) as u16
}

/// Which of the 16 slots around the spawn ring a player spawns on.
pub fn spawn_slot(client_id: u64) -> (r: u64)
    ensures
        r == client_id % 16,
        r < 16,
{
    client_id % 16
}

} // verus!
