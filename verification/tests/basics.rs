use usage_companion::dpi::scale_for_dpi;
use usage_companion::kind::CharacterKind;
use usage_companion::mood::{band_for, girl_stage, Band};
use usage_companion::rng::{rng_next, Rng, FALLBACK_SEED};

fn draws(seed: u64, n: usize) -> Vec<u64> {
    let mut rng = Rng::resume(seed, None);
    let mut out: Vec<u64> = Vec::new();
    for _ in 0..n {
        out.push(rng_next(&mut rng));
    }
    out
}

#[test]
fn draws_follow_the_shifts() {
    assert_eq!(draws(1, 3), vec![1082269761, 1152992998833853505, 11177516664432764457]);
}

#[test]
fn a_generator_without_clock_starts_from_the_fixed_seed() {
    let rng = Rng::resume(0, None);
    assert_eq!(rng.save(), 0x9E37_79B9_7F4A_7C15);
    assert_eq!(rng.save(), FALLBACK_SEED);
}

#[test]
fn a_clock_reading_is_made_odd() {
    assert_eq!(Rng::resume(0, Some(1_000_000)).save(), 1_000_001);
    assert_eq!(Rng::resume(0, Some(7)).save(), 7);
    assert_eq!(Rng::resume(0, Some(0)).save(), 1);
}

#[test]
fn a_saved_generator_carries_on() {
    let all: Vec<u64> = draws(99, 6);
    let mut rng = Rng::resume(99, None);
    for k in 0..6 {
        let saved: u64 = rng.save();
        rng = Rng::resume(saved, Some(5));
        assert_eq!(rng_next(&mut rng), all[k]);
    }
}

#[test]
fn no_draw_is_zero() {
    for d in draws(12345, 5000) {
        assert_ne!(d, 0);
    }
}

#[test]
fn different_states_draw_differently() {
    let mut seen: Vec<u64> = Vec::new();
    for seed in 1..500u64 {
        seen.push(draws(seed, 1)[0]);
    }
    seen.sort();
    seen.dedup();
    assert_eq!(seen.len(), 499);
}

#[test]
fn scales_are_the_nearest_whole_ones() {
    let wanted: [(u32, i32); 9] =
        [(0, 1), (1, 1), (47, 1), (96, 1), (143, 1), (144, 2), (192, 2), (288, 3), (480, 5)];
    for (dpi, u) in wanted {
        assert_eq!(scale_for_dpi(dpi), u);
    }
    assert_eq!(scale_for_dpi(u32::MAX), 1);
    assert_eq!(scale_for_dpi(2_147_483_599), 22_369_621);
}

#[test]
fn codes_are_read_back() {
    let all: [(CharacterKind, &str); 4] = [
        (CharacterKind::Cat, "cat"),
        (CharacterKind::Dog, "dog"),
        (CharacterKind::Girl, "girl"),
        (CharacterKind::Both, "both"),
    ];
    for (kind, code) in all {
        assert_eq!(kind.code(), code);
        assert_eq!(CharacterKind::from_code(code), Some(kind));
    }
    for other in ["", "Cat", "cat ", "cats", "bird"] {
        assert_eq!(CharacterKind::from_code(other), None);
    }
}

#[test]
fn both_is_the_cat_and_the_dog() {
    let shown = |k: CharacterKind| (k.shows_cat(), k.shows_dog(), k.shows_girl());
    assert_eq!(shown(CharacterKind::Cat), (true, false, false));
    assert_eq!(shown(CharacterKind::Dog), (false, true, false));
    assert_eq!(shown(CharacterKind::Girl), (false, false, true));
    assert_eq!(shown(CharacterKind::Both), (true, true, false));
}

#[test]
fn bands_begin_at_eighty_and_ninety() {
    assert_eq!(band_for(i32::MIN), Band::Low);
    assert_eq!(band_for(79), Band::Low);
    assert_eq!(band_for(80), Band::Soft);
    assert_eq!(band_for(89), Band::Soft);
    assert_eq!(band_for(90), Band::Urgent);
    assert_eq!(band_for(i32::MAX), Band::Urgent);
}

#[test]
fn layers_come_off_one_by_one() {
    let wanted: [(i32, u8); 8] =
        [(-5, 0), (0, 0), (59, 0), (60, 1), (74, 1), (75, 2), (89, 2), (90, 3)];
    for (percent, stage) in wanted {
        assert_eq!(girl_stage(percent), stage);
    }
}
