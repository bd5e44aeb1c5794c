use rand::rngs::StdRng;
use rand::Rng;
use rand::SeedableRng;
use vstd::prelude::*;

verus! {

#[verifier::external_type_specification]
#[verifier::external_body]
pub struct ExStdRng(StdRng);

/// The seed that a run starts from: any number of unsigned words.
pub type Seed = Vec<u64>;

/// The number of 64-bit lanes in the generator's 32-byte key.
pub const LANES: usize = 4;

/// Lane `lane` of the key: the exclusive or of every seed word whose index is
/// `lane` modulo the number of lanes.
pub open spec fn lane_of(seed: Seq<u64>, lane: int) -> u64
    decreases seed.len(),
{
    if seed.len() == 0 {
        0
    } else {
        let prev = lane_of(seed.drop_last(), lane);
        if (seed.len() - 1) % (LANES as int) == lane {
            prev ^ seed.last()
        } else {
            prev
        }
    }
}

/// Byte `k` of the 32-byte key: lanes in order, each little-endian.
pub open spec fn key_byte(seed: Seq<u64>, k: int) -> u8 {
    (lane_of(seed, k / 8) >> ((k % 8) * 8) as u64) as u8
}

/// Folds a seed of any length into the 32 bytes that seed the generator.
pub fn seed_key(seed: &Seed) -> (r: Vec<u8>)
    ensures
        r@.len() == 32,
        forall|k: int| 0 <= k < 32 ==> r@[k] == key_byte(seed@, k),
{
    let mut lanes: Vec<u64> = vec![0u64, 0u64, 0u64, 0u64];
    let mut i: usize = 0;
    while i < seed.len()
        invariant
            i <= seed@.len(),
            lanes@.len() == LANES,
            forall|l: int| 0 <= l < LANES ==> lanes@[l] == lane_of(seed@.take(i as int), l),
        decreases seed@.len() - i,
    {
        let lane = i % LANES;
        let w = lanes[lane] ^ seed[i];
        lanes.set(lane, w);
        proof {
            let next = seed@.take(i as int + 1);
            assert(next.drop_last() == seed@.take(i as int));
            assert(next.last() == seed@[i as int]);
        }
        i = i + 1;
    }
    assert(seed@.take(seed@.len() as int) == seed@);
    let mut key: Vec<u8> = Vec::new();
    let mut k: usize = 0;
    while k < 32
        invariant
            k <= 32,
            lanes@.len() == LANES,
            forall|l: int| 0 <= l < LANES ==> lanes@[l] == lane_of(seed@, l),
            key@.len() == k,
            forall|j: int| 0 <= j < k ==> key@[j] == key_byte(seed@, j),
        decreases 32 - k,
    {
        let shift: u64 = ((k % 8) * 8) as u64;
        let b = (lanes[k / 8] >> shift) as u8;
        key.push(b);
        k = k + 1;
    }
    key
}

/// Relies on rand's `SeedableRng::from_seed` for `StdRng`: builds the
/// generator from a 32-byte key. The result is opaque here.
#[verifier::external_body]
fn rng_from_key(key: &Vec<u8>) -> StdRng
    requires
        key@.len() == 32,
{
    let mut bytes = [0u8; 32];
    bytes.copy_from_slice(key.as_slice());
    StdRng::from_seed(bytes)
}

/// The randomness source of a run, built from the seed alone.
pub fn seeded(seed: &Seed) -> StdRng {
    let key = seed_key(seed);
    rng_from_key(&key)
}

/// Relies on rand's `Rng::gen_range` over the inclusive range `0..=high`:
/// a value between zero and `high`. The range is never empty, so it does not panic.
#[verifier::external_body]
pub(crate) fn draw_up_to(rng: &mut StdRng, high: u64) -> (r: u64)
    ensures
        r <= high,
{
    rng.gen_range(0..=high)
}

/// Relies on rand's `Rng::gen::<bool>`: a fair coin. Either value may come.
#[verifier::external_body]
pub(crate) fn draw_coin(rng: &mut StdRng) -> bool {
    rng.gen::<bool>()
}

/// An index drawn uniformly from `0..n`.
pub fn index_below(rng: &mut StdRng, n: usize) -> (r: usize)
    requires
        n > 0,
    ensures
        r < n,
{
    let r = draw_up_to(rng, (n - 1) as u64);
    r as usize
}

} // verus!
