use vstd::prelude::*;
use rand::rngs::ThreadRng;
use rand::Rng;
use crate::world::{SpawnedBody, in_spawn_area, CIRCLE_COUNT, HALF_HEIGHT, HALF_WIDTH};

verus! {

/// rand's thread-local generator handle, carried through as an opaque value.
#[verifier::external_type_specification]
#[verifier::external_body]
pub struct ExThreadRng(ThreadRng);

/// Relies on rand's `Rng::gen_range` over the half-open range `lo..hi` of
/// `i32`: the sample lies in `[lo, hi)`. It panics on an empty range, which
/// `lo < hi` rules out.
#[verifier::external_body]
fn draw_between(rng: &mut ThreadRng, lo: i32, hi: i32) -> (r: i32)
    requires
        lo < hi,
    ensures
        lo <= r < hi,
{
    rng.gen_range(lo..hi)
}

/// The body placed at the sampled grid point `(x, y)`, at rest.
pub fn body_at(x: i32, y: i32) -> (b: SpawnedBody)
    ensures
        b == (SpawnedBody { x, y, vx: 0, vy: 0 }),
{
    SpawnedBody { x, y, vx: 0, vy: 0 }
}

/// Places `CIRCLE_COUNT` bodies. For each body an `x` is drawn uniformly
/// from `[-HALF_WIDTH, HALF_WIDTH)`, then a `y` from
/// `[-HALF_HEIGHT, HALF_HEIGHT)`; every body starts at rest.
pub fn populate(rng: &mut ThreadRng) -> (bodies: Vec<SpawnedBody>)
    ensures
        bodies.len() == CIRCLE_COUNT,
        forall|i: int| 0 <= i < bodies.len() ==> #[trigger] bodies[i].is_fresh(),
{
    let mut bodies: Vec<SpawnedBody> = Vec::new();
    let mut n: usize = 0;
    while n < CIRCLE_COUNT
        invariant
            n <= CIRCLE_COUNT,
            bodies.len() == n,
            forall|i: int| 0 <= i < bodies.len() ==> #[trigger] bodies[i].is_fresh(),
        decreases CIRCLE_COUNT - n,
    {
        let x = draw_between(rng, -HALF_WIDTH, HALF_WIDTH);
        let y = draw_between(rng, -HALF_HEIGHT, HALF_HEIGHT);
        assert(in_spawn_area(x as int, y as int));
        bodies.push(body_at(x, y));
        n += 1;
    }
    bodies
}

} // verus!
