use usage_companion::character::{CAT_SPEED, DOG_SPEED, GIRL_SPEED, START_LEFT, START_RIGHT};
use usage_companion::critter::{critter_bounds, point_in, step_critter, update_hover, Critter, Pose};
use usage_companion::language::LanguageId;
use usage_companion::phrases::Species;
use usage_companion::position::{glide, round_single, scale_column, MAX_X, ONE};
use usage_companion::rng::{rng_next, Rng};

fn pixels(x: i64) -> f32 {
    (x as f64 / ONE as f64) as f32
}

fn exact(p: f32) -> i64 {
    (p as f64 * ONE as f64) as i64
}

#[test]
fn speeds_are_single_precision_numbers() {
    assert_eq!(exact(0.55), CAT_SPEED);
    assert_eq!(exact(0.7), DOG_SPEED);
    assert_eq!(exact(0.5), GIRL_SPEED);
    assert_eq!(exact(8.0), START_LEFT);
    assert_eq!(exact(144.0), START_RIGHT);
    assert_eq!(exact(152.0), MAX_X);
}

#[test]
fn rounding_is_to_nearest_even() {
    assert_eq!(round_single(0), 0);
    assert_eq!(round_single(0xFF_FFFF), 0xFF_FFFF);
    assert_eq!(round_single(0x100_0001), 0x100_0000);
    assert_eq!(round_single(0x100_0003), 0x100_0004);
    assert_eq!(round_single(0x1FF_FFFF), 0x200_0000);
    let mut n: u64 = 1;
    for k in 0..4000u64 {
        n = n.wrapping_mul(6364136223846793005).wrapping_add(1442695040888963407 + k);
        let m: u64 = n >> (1 + k % 40);
        assert_eq!(round_single(m), (m as f32) as u64);
    }
}

#[test]
fn walks_agree_with_single_precision_arithmetic() {
    for (speed, start) in [(0.55f32, 8.0f32), (0.7, 144.0), (0.5, 8.0), (1.3, 77.7), (151.9, 3.0)] {
        let mut x: i64 = exact(start);
        let mut dir: i32 = 1;
        let mut p: f32 = start;
        let mut d: f32 = 1.0;
        for k in 0..20_000u32 {
            if k % 97 == 96 {
                dir = -dir;
                d = -d;
            }
            p += d * speed;
            if p <= 0.0 {
                p = 0.0;
                d = 1.0;
            } else if p >= 152.0 {
                p = 152.0;
                d = -1.0;
            }
            let next: (i64, i32) = glide(x, dir, MAX_X, exact(speed));
            x = next.0;
            dir = next.1;
            assert_eq!(exact(p), x);
            assert_eq!(pixels(x), p);
            assert_eq!(dir, d as i32);
        }
    }
}

#[test]
fn columns_agree_with_single_precision_arithmetic() {
    let mut x: i64 = exact(8.0);
    let mut dir: i32 = 1;
    for _ in 0..3000 {
        let next: (i64, i32) = glide(x, dir, MAX_X, exact(0.55));
        x = next.0;
        dir = next.1;
        for u in [1, 2, 3, 4, 5, 7, 10, 33, 402, 99_991] {
            assert_eq!(scale_column(x, u), (pixels(x) * u as f32) as i32);
        }
    }
    assert_eq!(scale_column(0, 5), 0);
    assert_eq!(scale_column(MAX_X, 5), 760);
    for u in [1, 2, 3, 17, 402, 100_003] {
        assert!(scale_column(MAX_X, u) + 32 * u <= 184 * u);
    }
}

#[test]
fn walls_turn_characters_round() {
    assert_eq!(glide(10, -1, MAX_X, 20), (0, 1));
    assert_eq!(glide(20, -1, MAX_X, 20), (0, 1));
    assert_eq!(glide(MAX_X - 10, 1, MAX_X, 20), (MAX_X, -1));
    assert_eq!(glide(exact(10.0), 1, MAX_X, exact(0.5)), (exact(10.5), 1));
}

#[test]
fn characters_turn_at_the_walls_of_any_range() {
    for (max_x, speed) in [(exact(10.0), exact(0.75)), (exact(1000.0), exact(33.3)), (ONE, ONE * 9)] {
        let mut rng = Rng::resume(8, None);
        let mut c = Critter::new(Species::Dog, 1, 0, 1);
        let mut walls: u32 = 0;
        for frame in 1..3000u64 {
            let before: i64 = c.x;
            step_critter(&mut c, &mut rng, frame, LanguageId::English, max_x, speed);
            assert!(0 <= c.x && c.x <= max_x);
            if c.x != before {
                assert!(c.moving);
                if c.x == 0 {
                    assert_eq!(c.dir, 1);
                    walls += 1;
                }
                if c.x == max_x {
                    assert_eq!(c.dir, -1);
                    walls += 1;
                }
            }
        }
        assert!(walls > 2);
        assert_eq!((c.species, c.variant, c.hovering, c.kiss_max), (Species::Dog, 1, false, 0));
    }
}

/// A character in single precision, with the same timers.
struct Plain {
    x: f32,
    dir: f32,
    moving: bool,
    move_ticks: u32,
    blink: u32,
    draws: u32,
}

impl Plain {
    fn step(&mut self, rng: &mut Rng, speed: f32, silent_and_still: &mut bool) {
        if self.move_ticks == 0 {
            self.moving = !self.moving;
            let d: u64 = rng_next(rng);
            self.draws += 1;
            self.move_ticks = if self.moving { 40 + (d % 60) as u32 } else { 20 + (d % 30) as u32 };
            if self.moving {
                self.draws += 1;
                if rng_next(rng) % 2 == 0 {
                    self.dir = -self.dir;
                }
            }
        }
        self.move_ticks -= 1;
        if self.moving {
            self.x += self.dir * speed;
            if self.x <= 0.0 {
                self.x = 0.0;
                self.dir = 1.0;
            } else if self.x >= 152.0 {
                self.x = 152.0;
                self.dir = -1.0;
            }
        }
        if self.blink == 0 {
            self.draws += 1;
            self.blink = 30 + (rng_next(rng) % 40) as u32;
        }
        self.blink -= 1;
        *silent_and_still = !self.moving;
    }
}

#[test]
fn roaming_agrees_with_single_precision_arithmetic() {
    let mut rng = Rng::resume(2024, None);
    let mut plain_rng = Rng::resume(2024, None);
    let mut c = Critter::new(Species::Cat, 0, exact(8.0), 1);
    let mut p = Plain { x: 8.0, dir: 1.0, moving: true, move_ticks: 0, blink: 0, draws: 0 };
    let mut remarks: u32 = 0;
    for frame in 1..6000u64 {
        let quiet: bool = c.bubble.is_none();
        step_critter(&mut c, &mut rng, frame, LanguageId::English, MAX_X, exact(0.55));
        let mut still: bool = false;
        p.step(&mut plain_rng, 0.55, &mut still);
        if still && quiet && rng_next(&mut plain_rng) % 220 == 0 {
            // A remark takes one more draw, for the phrase.
            rng_next(&mut plain_rng);
            remarks += 1;
            assert_eq!(c.bubble.as_ref().map(|b| (b.ttl, b.max_ttl, b.pri)), Some((29, 30, 0)));
        }
        assert_eq!(pixels(c.x), p.x);
        assert_eq!(c.dir, p.dir as i32);
        assert_eq!(c.moving, p.moving);
        assert_eq!(c.move_ticks, p.move_ticks);
        assert_eq!(c.blink_ctr, p.blink);
        assert_eq!(c.pose, if p.moving { Pose::Walk } else { Pose::Idle });
        assert_eq!(rng.save(), plain_rng.save());
        assert!(0 <= c.x && c.x <= MAX_X);
    }
    assert!(remarks > 0);
    assert!(p.draws > 100);
}

#[test]
fn bounding_boxes_follow_the_position() {
    let c = Critter::new(Species::Dog, 0, exact(10.3), -1);
    assert_eq!(critter_bounds(&c, 1), (10, 38, 32, 32));
    assert_eq!(critter_bounds(&c, 3), (30, 114, 96, 96));
    assert!(point_in(&c, 1, 10, 38));
    assert!(point_in(&c, 1, 41, 69));
    assert!(!point_in(&c, 1, 9, 38));
    assert!(!point_in(&c, 1, 42, 38));
    assert!(!point_in(&c, 1, 10, 37));
    assert!(!point_in(&c, 1, 10, 70));
    assert!(!point_in(&c, 1, i32::MIN, i32::MAX));
}

#[test]
fn hovering_freezes_and_after_a_while_makes_a_character_speak() {
    let mut rng = Rng::resume(5, None);
    let mut c = Critter::new(Species::Cat, 1, exact(50.0), 1);
    assert!(update_hover(&mut c, true, 100));
    assert!(!update_hover(&mut c, true, 101));
    assert_eq!(c.hover_since, Some(100));
    for frame in 101..112u64 {
        step_critter(&mut c, &mut rng, frame, LanguageId::English, MAX_X, exact(0.55));
        assert!(c.bubble.is_none());
        assert_eq!(c.x, exact(50.0));
        assert_eq!(c.pose, Pose::Hover);
    }
    step_critter(&mut c, &mut rng, 112, LanguageId::English, MAX_X, exact(0.55));
    let said = c.bubble.as_ref().map(|b| (b.ttl, b.max_ttl, b.pri));
    assert_eq!(said, Some((35, 36, 1)));
    assert!(update_hover(&mut c, false, 113));
    assert_eq!(c.hover_since, None);
    assert!(!update_hover(&mut c, false, 114));
}

#[test]
fn poses_have_their_order() {
    let mut c = Critter::new(Species::Cat, 0, 0, 1);
    assert_eq!(c.pose_now(), Pose::Walk);
    c.moving = false;
    assert_eq!(c.pose_now(), Pose::Idle);
    c.react_ticks = 3;
    assert_eq!(c.pose_now(), Pose::React);
    c.hovering = true;
    assert_eq!(c.pose_now(), Pose::Hover);
    c.clicked_ticks = 1;
    assert_eq!(c.pose_now(), Pose::Clicked);
}
