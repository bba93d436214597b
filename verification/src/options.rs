use rand::rngs::StdRng;
use rand::SeedableRng;
use vstd::arithmetic::power2::pow2;
use vstd::prelude::*;

verus! {

/// Cells are one pixel square unless the user asks otherwise.
pub const DEFAULT_CELL_SIZE: u32 = 1;

/// The pause between frames that a `--delay` of `delay` milliseconds asks
/// for: a delay of zero means no pause at all.
pub open spec fn spec_frame_delay_ms(delay: Option<u64>) -> Option<u64> {
    if delay == Some(0u64) {
        None
    } else {
        delay
    }
}

/// Normalises the `--delay` option: `Some(0)` becomes `None`, so that a
/// zero delay never sleeps; any other value is kept.
pub fn frame_delay_ms(delay: Option<u64>) -> (d: Option<u64>)
    ensures
        d == spec_frame_delay_ms(delay),
{
    match delay {
        Some(0) => None,
        other => other,
    }
}

/// A pause happens exactly when a nonzero delay was asked for, and it is
/// then the delay asked for, unchanged.
pub proof fn lemma_delay_is_kept_unless_zero(delay: Option<u64>)
    ensures
        spec_frame_delay_ms(delay) is None <==> (delay is None || delay == Some(0u64)),
        spec_frame_delay_ms(delay) is Some ==> spec_frame_delay_ms(delay) == delay,
{
}

/// The 32-byte generator seed built from a `--seed` value: byte `i`, for
/// `i < 8`, is the low byte of `seed >> i`; the other bytes are zero.
pub open spec fn spec_seed_bytes(seed: u64) -> Seq<u8> {
    Seq::new(32, |i: int| if i < 8 { ((seed >> (i as u64)) & 0xff) as u8 } else { 0u8 })
}

/// Builds the generator seed for a `--seed` value.
pub fn seed_bytes(seed: u64) -> (buf: [u8; 32])
    ensures
        buf@ == spec_seed_bytes(seed),
{
    let mut buf = [0u8; 32];
    let mut i: usize = 0;
    while i < 8
        invariant
            0 <= i <= 8,
            buf@.len() == 32,
            forall|j: int| 0 <= j < i ==> buf@[j] == spec_seed_bytes(seed)[j],
            forall|j: int| 8 <= j < 32 ==> buf@[j] == 0u8,
        decreases 8 - i,
    {
        buf[i] = ((seed >> (i as u64)) & 0xff) as u8;
        i = i + 1;
    }
    assert(buf@ =~= spec_seed_bytes(seed));
    buf
}

/// The seed buffer, arithmetically: for `i < 8`, byte `i` is the seed
/// divided by `2^i`, modulo 256; every later byte is zero.
pub proof fn lemma_seed_bytes_arithmetic(seed: u64)
    ensures
        spec_seed_bytes(seed).len() == 32,
        forall|i: int|
            0 <= i < 8 ==> #[trigger] spec_seed_bytes(seed)[i] as int == (seed as int / pow2(
                i as nat,
            ) as int) % 256,
        forall|i: int| 8 <= i < 32 ==> #[trigger] spec_seed_bytes(seed)[i] == 0u8,
{
    vstd::arithmetic::power2::lemma2_to64();
    assert(((seed >> 0u64) & 0xff) as int == (seed as int / 1) % 256) by (bit_vector);
    assert(((seed >> 1u64) & 0xff) as int == (seed as int / 2) % 256) by (bit_vector);
    assert(((seed >> 2u64) & 0xff) as int == (seed as int / 4) % 256) by (bit_vector);
    assert(((seed >> 3u64) & 0xff) as int == (seed as int / 8) % 256) by (bit_vector);
    assert(((seed >> 4u64) & 0xff) as int == (seed as int / 16) % 256) by (bit_vector);
    assert(((seed >> 5u64) & 0xff) as int == (seed as int / 32) % 256) by (bit_vector);
    assert(((seed >> 6u64) & 0xff) as int == (seed as int / 64) % 256) by (bit_vector);
    assert(((seed >> 7u64) & 0xff) as int == (seed as int / 128) % 256) by (bit_vector);
    assert forall|i: int| 0 <= i < 8 implies #[trigger] spec_seed_bytes(seed)[i] as int == (
    seed as int / pow2(i as nat) as int) % 256 by {
        if i == 0 {
        } else if i == 1 {
        } else if i == 2 {
        } else if i == 3 {
        } else if i == 4 {
        } else if i == 5 {
        } else if i == 6 {
        } else {
        }
    }
}

/// Only the low 15 bits of a seed reach the seed buffer: two seeds that
/// agree on them give the same buffer, and so the same generator.
pub proof fn lemma_seed_reads_low_bits(a: u64, b: u64)
    requires
        a % 0x8000 == b % 0x8000,
    ensures
        spec_seed_bytes(a) == spec_seed_bytes(b),
{
    assert forall|i: int| 0 <= i < 32 implies spec_seed_bytes(a)[i] == spec_seed_bytes(b)[i] by {
        if i < 8 {
            let k = i as u64;
            assert(((a >> k) & 0xff) == ((b >> k) & 0xff)) by (bit_vector)
                requires
                    a % 0x8000 == b % 0x8000,
                    k < 8,
            ;
        }
    }
    assert(spec_seed_bytes(a) =~= spec_seed_bytes(b));
}

/// What `StdRng::from_seed` builds from a seed.
pub uninterp spec fn std_rng_from_seed_result(seed: Seq<u8>) -> StdRng;

#[verifier::external_type_specification]
#[verifier::external_body]
pub struct ExStdRng(StdRng);

/// Calls `rand::rngs::StdRng::from_seed` (rand 0.5): the generator it
/// returns is a function of the seed bytes alone, so equal seeds give
/// generators in equal states.
#[verifier::external_body]
fn std_rng_from_seed(seed: [u8; 32]) -> (rng: StdRng)
    ensures
        rng == std_rng_from_seed_result(seed@),
{
    StdRng::from_seed(seed)
}

/// The random number generator for a given `--seed`.
pub fn seeded_rng(seed: u64) -> (rng: StdRng)
    ensures
        rng == std_rng_from_seed_result(spec_seed_bytes(seed)),
{
    let buf = seed_bytes(seed);
    std_rng_from_seed(buf)
}

} // verus!
