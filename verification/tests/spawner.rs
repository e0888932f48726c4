use air_combat::spawner::{
    draw_numbers, place_enemy, spawn_wave, wave_from_draws, EnemyPlacement, RandomSource,
    FIELD_SPAN, FIELD_START, WAVE_BASE,
};

/// Hands out the numbers of a list, over and over, and counts the draws.
struct Replay {
    values: Vec<u32>,
    drawn: usize,
}

impl Replay {
    fn of(values: Vec<u32>) -> Replay {
        Replay { values, drawn: 0 }
    }
}

impl RandomSource for Replay {
    fn next_uint(&mut self) -> u32 {
        let value = self.values[self.drawn % self.values.len()];
        self.drawn += 1;
        value
    }
}

/// A linear congruential generator: numbers all over the range.
struct Scatter {
    state: u32,
}

impl RandomSource for Scatter {
    fn next_uint(&mut self) -> u32 {
        self.state = self.state.wrapping_mul(1664525).wrapping_add(1013904223);
        self.state
    }
}

#[test]
fn field_constants() {
    assert_eq!(FIELD_START, 700);
    assert_eq!(FIELD_SPAN, 5000);
    assert_eq!(WAVE_BASE, 11);
}

#[test]
fn place_enemy_reduces_both_draws() {
    assert_eq!(place_enemy(0, 0, 600), EnemyPlacement { x: 700, y: 0 });
    assert_eq!(place_enemy(4999, 599, 600), EnemyPlacement { x: 5699, y: 599 });
    assert_eq!(place_enemy(5000, 600, 600), EnemyPlacement { x: 700, y: 0 });
    assert_eq!(place_enemy(5001, 601, 600), EnemyPlacement { x: 701, y: 1 });
    assert_eq!(place_enemy(12345, 6789, 720), EnemyPlacement { x: 3045, y: 309 });
}

#[test]
fn place_enemy_at_the_largest_draws() {
    assert_eq!(place_enemy(u32::MAX, u32::MAX, 600), EnemyPlacement { x: 2995, y: 495 });
    assert_eq!(place_enemy(u32::MAX, u32::MAX, u32::MAX), EnemyPlacement { x: 2995, y: 0 });
    assert_eq!(place_enemy(u32::MAX, u32::MAX - 1, u32::MAX), EnemyPlacement {
        x: 2995,
        y: u32::MAX - 1,
    });
}

#[test]
fn place_enemy_with_a_viewport_of_one() {
    assert_eq!(place_enemy(17, 99, 1), EnemyPlacement { x: 717, y: 0 });
}

#[test]
fn wave_from_draws_pairs_the_draws_in_order() {
    let draws = vec![0, 0, 4999, 599, 5000, 600, 1, 2];
    let wave = wave_from_draws(&draws, 600);
    assert_eq!(
        wave,
        vec![
            EnemyPlacement { x: 700, y: 0 },
            EnemyPlacement { x: 5699, y: 599 },
            EnemyPlacement { x: 700, y: 0 },
            EnemyPlacement { x: 701, y: 2 },
        ]
    );
}

#[test]
fn wave_from_draws_leaves_an_odd_draw_out() {
    assert_eq!(wave_from_draws(&vec![10, 20, 30], 100), vec![EnemyPlacement { x: 710, y: 20 }]);
    assert_eq!(wave_from_draws(&vec![10], 100), vec![]);
    assert_eq!(wave_from_draws(&vec![], 100), vec![]);
}

#[test]
fn draw_numbers_takes_them_in_order() {
    let mut rng = Replay::of(vec![5, 6, 7]);
    assert_eq!(draw_numbers(5, &mut rng), vec![5, 6, 7, 5, 6]);
    assert_eq!(rng.drawn, 5);
    assert_eq!(draw_numbers(0, &mut rng), vec![]);
    assert_eq!(rng.drawn, 5);
}

#[test]
fn first_stage_wave_has_twelve_placements_inside_the_viewport() {
    let mut rng = Scatter { state: 2024 };
    let wave = spawn_wave(1, 600, &mut rng);
    assert_eq!(wave.len(), 12);
    for p in wave.iter() {
        assert!(p.y < 600);
        assert!(p.x >= 700 && p.x < 5700);
    }
}

#[test]
fn wave_grows_by_one_per_stage() {
    for stage in [0u32, 1, 2, 3, 10, 100, 1000] {
        let mut rng = Scatter { state: stage };
        let wave = spawn_wave(stage, 720, &mut rng);
        assert_eq!(wave.len(), 11 + stage as usize);
    }
}

#[test]
fn every_placement_lies_in_the_field() {
    for height in [1u32, 2, 599, 600, 720, 1080, u32::MAX] {
        let mut rng = Scatter { state: height };
        for p in spawn_wave(25, height, &mut rng) {
            assert!(p.x >= 700);
            assert!(p.x < 5700);
            assert!(p.y < height);
        }
    }
}

#[test]
fn spawn_wave_draws_twice_per_enemy_with_x_first() {
    let mut rng = Replay::of(vec![1, 2, 3, 4, 5, 6]);
    let wave = spawn_wave(2, 600, &mut rng);
    assert_eq!(rng.drawn, 26);
    assert_eq!(wave.len(), 13);
    assert_eq!(wave[0], EnemyPlacement { x: 701, y: 2 });
    assert_eq!(wave[1], EnemyPlacement { x: 703, y: 4 });
    assert_eq!(wave[2], EnemyPlacement { x: 705, y: 6 });
    assert_eq!(wave[3], EnemyPlacement { x: 701, y: 2 });
    assert_eq!(wave[12], EnemyPlacement { x: 701, y: 2 });
}

#[test]
fn remainder_placement_favours_low_heights() {
    // The height is the remainder of the draw, so draws past the last full
    // multiple of the viewport's height fall on its low end.
    assert_eq!(place_enemy(0, 4294967200, 4294967000).y, 200);
    assert_eq!(place_enemy(0, 4294967295, 4294967000).y, 295);
}
