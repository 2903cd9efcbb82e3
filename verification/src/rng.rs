use vstd::prelude::*;

verus! {

/// Uniform integer draw collaborator used by the weighted activity
/// selection. Implementations must return a value within the inclusive
/// bounds; nothing else is assumed of the draw.
pub trait RandomSource {
    fn random_int(&mut self, low: i32, high: i32) -> (r: i32)
        requires
            low <= high,
        ensures
            low <= r <= high,
    ;
}

/// A small deterministic pseudo-random source (a linear congruential
/// generator), suitable for reproducible selection and for exercising the
/// weighted lookup without an external engine.
pub struct SeededRandom {
    pub state: u64,
}

impl SeededRandom {
    pub fn new(seed: u64) -> (r: Self)
        ensures
            r.state == seed,
    {
        SeededRandom { state: seed }
    }
}

impl RandomSource for SeededRandom {
    fn random_int(&mut self, low: i32, high: i32) -> (r: i32) {
        self.state = self.state.wrapping_mul(6364136223846793005).wrapping_add(
            1442695040888963407,
        );
        let span: u64 = (high as i64 - low as i64 + 1) as u64;
        let s: u64 = self.state;
        let top: u64 = s >> 33;
        proof {
            assert(s >> 33 < 0x8000_0000u64) by (bit_vector);
        }
        let draw: u64 = top % span;
        let r = (low as i64 + draw as i64) as i32;
        r
    }
}

} // verus!
