//! Where the enemies of a wave appear.

use vstd::prelude::*;

verus! {

/// Distance from the left edge beyond which enemies appear.
pub const FIELD_START: u32 = 700;

/// Width of the strip, right of `FIELD_START`, in which enemies appear.
pub const FIELD_SPAN: u32 = 5000;

/// Enemies of a wave on top of one per stage number.
pub const WAVE_BASE: u32 = 11;

/// A supply of unsigned integers. Nothing is assumed of the numbers drawn.
pub trait RandomSource {
    fn next_uint(&mut self) -> u32;
}

/// The position at which one enemy enters the arena.
#[derive(Clone, Copy, Debug, PartialEq, Eq, Structural)]
pub struct EnemyPlacement {
    pub x: u32,
    pub y: u32,
}

/// How many enemies the wave of a stage holds: eleven and one more per stage.
pub open spec fn wave_size(stage: u32) -> nat {
    (WAVE_BASE + stage) as nat
}

/// The placement that a pair of draws gives: the first draw, reduced modulo
/// the strip's width, is the offset into the strip; the second, reduced
/// modulo the viewport's height, is the height.
pub open spec fn placement_of(draw_x: u32, draw_y: u32, viewport_height: u32) -> EnemyPlacement
    recommends
        viewport_height > 0,
{
    EnemyPlacement {
        x: (FIELD_START + draw_x % FIELD_SPAN) as u32,
        y: (draw_y % viewport_height) as u32,
    }
}

/// A placement lies in the strip right of the visible field and inside the
/// viewport's height.
pub open spec fn in_field(p: EnemyPlacement, viewport_height: u32) -> bool {
    &&& FIELD_START <= p.x < FIELD_START + FIELD_SPAN
    &&& p.y < viewport_height
}

/// A full wave for a stage, every placement of it in the field.
pub open spec fn is_wave(wave: Seq<EnemyPlacement>, stage: u32, viewport_height: u32) -> bool {
    &&& wave.len() == wave_size(stage)
    &&& forall|i: int| 0 <= i < wave.len() ==> in_field(#[trigger] wave[i], viewport_height)
}

/// The wave that a run of draws gives: each pair of draws, in the order
/// drawn, gives one placement; the first draw of a pair is the one for `x`.
/// A draw left over at the end is not used.
pub open spec fn wave_of(draws: Seq<u32>, viewport_height: u32) -> Seq<EnemyPlacement>
    recommends
        viewport_height > 0,
{
    Seq::new(
        (draws.len() / 2) as nat,
        |i: int| placement_of(draws[2 * i], draws[2 * i + 1], viewport_height),
    )
}

/// Turns a pair of draws into a placement.
pub fn place_enemy(draw_x: u32, draw_y: u32, viewport_height: u32) -> (p: EnemyPlacement)
    requires
        viewport_height > 0,
    ensures
        p == placement_of(draw_x, draw_y, viewport_height),
        in_field(p, viewport_height),
{
    EnemyPlacement { x: FIELD_START + draw_x % FIELD_SPAN, y: draw_y % viewport_height }
}

/// Turns a run of draws into a wave, pair by pair.
pub fn wave_from_draws(draws: &Vec<u32>, viewport_height: u32) -> (wave: Vec<EnemyPlacement>)
    requires
        viewport_height > 0,
    ensures
        wave@ == wave_of(draws@, viewport_height),
        forall|i: int| 0 <= i < wave@.len() ==> in_field(#[trigger] wave@[i], viewport_height),
{
    let total: usize = draws.len();
    let pairs: usize = total / 2;
    let mut wave: Vec<EnemyPlacement> = Vec::new();
    let mut made: usize = 0;
    while made < pairs
        invariant
            viewport_height > 0,
            made <= pairs,
            total == draws@.len(),
            pairs == total / 2,
            wave@.len() == made,
            forall|i: int|
                0 <= i < made ==> #[trigger] wave@[i] == placement_of(
                    draws@[2 * i],
                    draws@[2 * i + 1],
                    viewport_height,
                ),
            forall|i: int| 0 <= i < made ==> in_field(#[trigger] wave@[i], viewport_height),
        decreases pairs - made,
    {
        wave.push(place_enemy(draws[2 * made], draws[2 * made + 1], viewport_height));
        made = made + 1;
    }
    assert(wave@ =~= wave_of(draws@, viewport_height));
    wave
}

/// Takes a number of draws from a source, in order. Nothing is known of
/// the numbers but how many there are.
pub fn draw_numbers<R: RandomSource>(count: u64, rng: &mut R) -> (draws: Vec<u32>)
    ensures
        draws@.len() == count,
{
    let mut draws: Vec<u32> = Vec::new();
    let mut taken: u64 = 0;
    while taken < count
        invariant
            taken <= count,
            draws@.len() == taken,
        decreases count - taken,
    {
        draws.push(rng.next_uint());
        taken = taken + 1;
    }
    draws
}

/// Draws the wave of a stage: two numbers per enemy, the one for `x` first.
/// Whatever the source hands out, the wave is complete and in the field.
pub fn spawn_wave<R: RandomSource>(stage: u32, viewport_height: u32, rng: &mut R) -> (wave: Vec<
    EnemyPlacement,
>)
    requires
        viewport_height > 0,
    ensures
        wave@.len() == 11 + stage,
        is_wave(wave@, stage, viewport_height),
{
    let count: u64 = 2 * (WAVE_BASE as u64 + stage as u64);
    let draws = draw_numbers(count, rng);
    wave_from_draws(&draws, viewport_height)
}

/// Every wave has eleven placements and one more per stage, each of them
/// at least `FIELD_START` and less than `FIELD_START + FIELD_SPAN` to the
/// right, and at a height below the viewport's.
pub proof fn lemma_wave_bounds(wave: Seq<EnemyPlacement>, stage: u32, viewport_height: u32)
    requires
        is_wave(wave, stage, viewport_height),
    ensures
        wave.len() == 11 + stage,
        forall|i: int|
            0 <= i < wave.len() ==> 700 <= (#[trigger] wave[i]).x < 5700 && 0 <= wave[i].y
                < viewport_height,
{
}

/// Whatever numbers are drawn, two for each enemy of a stage, the wave
/// they give is a full wave of that stage inside the field.
pub proof fn lemma_drawn_wave_is_wave(draws: Seq<u32>, stage: u32, viewport_height: u32)
    requires
        viewport_height > 0,
        draws.len() == 2 * wave_size(stage),
    ensures
        is_wave(wave_of(draws, viewport_height), stage, viewport_height),
{
}

/// A placement made from draws is in the field, whatever the draws.
pub proof fn lemma_placement_in_field(draw_x: u32, draw_y: u32, viewport_height: u32)
    requires
        viewport_height > 0,
    ensures
        in_field(placement_of(draw_x, draw_y, viewport_height), viewport_height),
{
}

} // verus!
