use usage_companion::critter::{pick_message, set_bubble, step_critter, Critter};
use usage_companion::forecast::{
    elapsed_in_window, girl_prediction, local_hhmm_after, prediction_message, LocalTime,
};
use usage_companion::language::LanguageId;
use usage_companion::phrases::{message_pool, pool_index, Pool, Species};
use usage_companion::position::{MAX_X, ONE};
use usage_companion::rng::{rng_next, Rng};
use usage_companion::speech::{
    blend_bubble, draw_bubble, place_bubble, premul, text_rect, Balloon,
};

const LANGUAGES: [LanguageId; 8] = [
    LanguageId::English,
    LanguageId::Dutch,
    LanguageId::Spanish,
    LanguageId::French,
    LanguageId::German,
    LanguageId::Japanese,
    LanguageId::Korean,
    LanguageId::TraditionalChinese,
];

const SPECIES: [Species; 3] = [Species::Cat, Species::Dog, Species::Girl];

const POOLS: [Pool; 7] = [
    Pool::Hover,
    Pool::Click,
    Pool::Idle,
    Pool::Soft,
    Pool::Urgent,
    Pool::Rest,
    Pool::Encourage,
];

#[test]
fn every_pool_has_phrases_that_differ() {
    for lang in LANGUAGES {
        for species in SPECIES {
            for pool in POOLS {
                let mut all: Vec<&str> = message_pool(lang, species, pool).to_vec();
                let n: usize = all.len();
                let size: usize = match (species, pool) {
                    (Species::Girl, _) => 3,
                    (_, Pool::Hover | Pool::Click) => 5,
                    (_, Pool::Idle) => 4,
                    _ => 3,
                };
                assert_eq!(n, size);
                assert!(all.iter().all(|s| !s.is_empty()));
                all.sort();
                all.dedup();
                assert_eq!(all.len(), n);
            }
        }
    }
}

#[test]
fn pools_have_slots_of_their_own() {
    for (i, pool) in POOLS.into_iter().enumerate() {
        assert_eq!(pool_index(pool), i);
    }
}

#[test]
fn characters_have_voices_of_their_own() {
    let first = |lang: LanguageId, species: Species, pool: Pool| message_pool(lang, species, pool)[0];
    assert_eq!(first(LanguageId::English, Species::Cat, Pool::Hover), "...what do you want.");
    assert_eq!(first(LanguageId::English, Species::Dog, Pool::Rest), "great job today!!");
    assert_eq!(first(LanguageId::English, Species::Girl, Pool::Urgent), "over 90%...!");
    assert_eq!(first(LanguageId::Dutch, Species::Girl, Pool::Idle), "lalala\u{266a}");
    assert_eq!(
        message_pool(LanguageId::Japanese, Species::Cat, Pool::Idle)[0],
        "zzz\u{2026}",
    );
}

#[test]
fn the_cat_and_the_dog_share_no_phrase() {
    for lang in LANGUAGES {
        for pool in POOLS {
            let dog: &[&str] = message_pool(lang, Species::Dog, pool);
            for phrase in message_pool(lang, Species::Cat, pool) {
                assert!(!dog.contains(phrase));
            }
        }
    }
    assert_eq!(
        message_pool(LanguageId::English, Species::Cat, Pool::Idle),
        ["zzz...", "so bored.", "...", "*stretch*"],
    );
}

#[test]
fn phrases_are_as_written() {
    let mut sum: u64 = 0xcbf2_9ce4_8422_2325;
    let mut count: usize = 0;
    for lang in LANGUAGES {
        for species in SPECIES {
            for pool in POOLS {
                for phrase in message_pool(lang, species, pool) {
                    for byte in phrase.bytes().chain([b'\n']) {
                        sum = (sum ^ byte as u64).wrapping_mul(0x100_0000_01b3);
                    }
                    count += 1;
                }
            }
        }
    }
    assert_eq!(count, 584);
    assert_eq!(sum, 0x0f6db13b1da43bdb);
}

#[test]
fn no_phrase_comes_twice_running() {
    let mut rng = Rng::resume(31, None);
    for species in SPECIES {
        for pool in POOLS {
            let mut c = Critter::new(species, 0, 0, 1);
            let mut last: String = String::new();
            for _ in 0..60 {
                let text: String = pick_message(&mut c, &mut rng, LanguageId::German, pool);
                assert_ne!(text, last);
                last = text;
            }
        }
    }
}

#[test]
fn the_draw_decides_which_phrase_comes() {
    let mut rng = Rng::resume(1, None);
    let mut copy = Rng::resume(1, None);
    let mut c = Critter::new(Species::Dog, 0, 0, 1);
    let all: &[&str] = message_pool(LanguageId::English, Species::Dog, Pool::Click);
    let mut last: i32 = -1;
    for _ in 0..40 {
        let text: String = pick_message(&mut c, &mut rng, LanguageId::English, Pool::Click);
        let mut i: usize = rng_next(&mut copy) as usize % all.len();
        if i as i32 == last {
            i = (i + 1) % all.len();
        }
        last = i as i32;
        assert_eq!(text, all[i]);
        assert_eq!(c.last_idx[1], last);
        assert_eq!(c.last_idx[0], -1);
    }
}

#[test]
fn bubbles_have_priorities() {
    let mut c = Critter::new(Species::Cat, 0, 0, 1);
    set_bubble(&mut c, "warning".to_string(), 50, 3);
    set_bubble(&mut c, "click".to_string(), 31, 2);
    assert_eq!(c.bubble.as_ref().map(|b| b.text.as_str()), Some("warning"));
    set_bubble(&mut c, "another".to_string(), 50, 3);
    assert_eq!(c.bubble.as_ref().map(|b| b.text.as_str()), Some("another"));
    set_bubble(&mut c, String::new(), 50, 3);
    assert_eq!(c.bubble.as_ref().map(|b| b.text.as_str()), Some("another"));
}

#[test]
fn bubbles_run_out() {
    let mut rng = Rng::resume(3, None);
    let mut c = Critter::new(Species::Cat, 0, 0, 1);
    set_bubble(&mut c, "hi".to_string(), 3, 2);
    for left in [2u32, 1] {
        step_critter(&mut c, &mut rng, 1, LanguageId::English, MAX_X, ONE);
        assert_eq!(c.bubble.as_ref().map(|b| (b.ttl, b.max_ttl)), Some((left, 3)));
    }
    step_critter(&mut c, &mut rng, 1, LanguageId::English, MAX_X, ONE);
    assert!(c.bubble.is_none());
}

#[test]
fn times_of_day_wrap_at_midnight() {
    let at = |hour: u16, minute: u16, second: u16, secs: u64| {
        local_hhmm_after(LocalTime { hour, minute, second }, secs)
    };
    assert_eq!(at(0, 0, 0, 0), "00:00");
    assert_eq!(at(9, 5, 59, 0), "09:05");
    assert_eq!(at(9, 5, 59, 1), "09:06");
    assert_eq!(at(23, 59, 30, 30), "00:00");
    assert_eq!(at(22, 30, 0, 5400), "00:00");
    assert_eq!(at(12, 0, 0, 86_400 * 3 + 61), "12:01");
    assert_eq!(at(1, 0, 0, u64::MAX - 3600), "07:00");
}

#[test]
fn a_pace_needs_a_minute_of_the_window() {
    assert_eq!(elapsed_in_window(0), Some(18_000));
    assert_eq!(elapsed_in_window(17_940), Some(60));
    assert_eq!(elapsed_in_window(17_941), None);
    assert_eq!(elapsed_in_window(u64::MAX), None);
}

#[test]
fn forecasts_name_the_time() {
    assert_eq!(
        prediction_message(LanguageId::English, true, "17:05"),
        "at this pace... done by 17:05.",
    );
    assert_eq!(prediction_message(LanguageId::English, false, "17:05"), "uh oh, 100% by 17:05!!");
    assert_eq!(
        prediction_message(LanguageId::French, false, "08:00"),
        "oh l\u{e0}, 100% \u{e0} 08:00 !!",
    );
    assert_eq!(prediction_message(LanguageId::Dutch, true, "08:00"), "in dit tempo... om 08:00 op.");
    assert_eq!(
        girl_prediction(LanguageId::German, "23:59"),
        "in dem Tempo... 23:59 wird knapp!",
    );
    for lang in LANGUAGES {
        for text in [
            prediction_message(lang, true, "01:23"),
            prediction_message(lang, false, "01:23"),
            girl_prediction(lang, "01:23"),
        ] {
            assert!(text.contains("01:23"));
        }
    }
}

fn placed(x_pixels: i64, ttl: u32, max_ttl: u32, u: i32, used: &mut Vec<(i32, i32)>) -> Balloon {
    place_bubble("x".to_string(), x_pixels * ONE, ttl, max_ttl, u, 184 * u, used)
}

#[test]
fn bubbles_sit_over_their_characters_inside_the_window() {
    let spot = |x: i64, u: i32| {
        let b: Balloon = placed(x, 20, 30, u, &mut Vec::new());
        (b.bx, b.tail_x)
    };
    assert_eq!(spot(60, 1), (34, 75));
    assert_eq!(spot(0, 1), (0, 15));
    assert_eq!(spot(152, 1), (100, 167));
    assert_eq!(spot(60, 2), (68, 150));
    assert_eq!(spot(152, 3), (300, 501));
}

#[test]
fn a_second_bubble_makes_way() {
    let mut used: Vec<(i32, i32)> = Vec::new();
    let first: Balloon = placed(20, 20, 30, 1, &mut used);
    assert_eq!(first.bx, 0);
    let second: Balloon = placed(30, 20, 30, 1, &mut used);
    assert_eq!(second.bx, 86);
    assert_eq!(used, vec![(0, 84), (86, 170)]);
}

#[test]
fn a_second_bubble_goes_left_where_there_is_no_room_to_the_right() {
    let second = |lo: i32, x: i64, u: i32| {
        let mut used: Vec<(i32, i32)> = vec![(lo * u, (lo + 84) * u)];
        placed(x, 20, 30, u, &mut used).bx
    };
    assert_eq!(second(100, 152, 1), 14);
    assert_eq!(second(100, 152, 2), 28);
    assert_eq!(second(84, 100, 1), 0);
    // To the right as far as the window goes.
    assert_eq!(second(15, 20, 1), 100);
    assert_eq!(second(16, 20, 1), 100);
    // No room on either side.
    assert_eq!(second(50, 50, 1), 100);
    // Nothing in the way.
    assert_eq!(second(100, 0, 1), 0);
}

#[test]
fn second_bubbles_keep_clear_where_they_can() {
    for lo in 0..=100i32 {
        for x in 0..=152i64 {
            let mut used: Vec<(i32, i32)> = vec![(lo, lo + 84)];
            let b: Balloon = placed(x, 20, 30, 1, &mut used);
            assert!(b.bx >= 0 && b.bx + 84 <= 184);
            if lo <= 16 || lo >= 84 {
                assert!(b.bx + 84 <= lo || b.bx >= lo + 84);
            }
        }
    }
}

#[test]
fn bubbles_fade_in_their_last_ticks() {
    let alpha = |ttl: u32, max_ttl: u32| placed(60, ttl, max_ttl, 1, &mut Vec::new()).alpha;
    assert_eq!(alpha(30, 30), 255);
    assert_eq!(alpha(4, 30), 255);
    assert_eq!(alpha(3, 30), 207);
    assert_eq!(alpha(2, 30), 159);
    assert_eq!(alpha(1, 30), 111);
    assert_eq!(alpha(0, 30), 64);
    assert_eq!(alpha(1, 4), 255);
}

#[test]
fn text_goes_inside_the_outline() {
    let b: Balloon = placed(60, 20, 30, 2, &mut Vec::new());
    let r = text_rect(&b, 2);
    assert_eq!((r.left, r.top, r.right, r.bottom), (72, 4, 232, 36));
}

#[test]
fn bubbles_have_an_outline_paper_and_a_tail() {
    let b: Balloon = placed(60, 20, 30, 1, &mut Vec::new());
    let mut bits: Vec<u32> = vec![0; 184 * 72];
    draw_bubble(&mut bits, 184, 72, 1, &b);
    let px = |x: usize, y: usize| bits[y * 184 + x];
    let outline: u32 = 0xFF78_7880;
    let paper: u32 = 0xFFFC_FCFA;
    assert_eq!(px(34, 1), outline);
    assert_eq!(px(117, 18), outline);
    assert_eq!(px(35, 2), paper);
    assert_eq!(px(116, 17), paper);
    assert_eq!(px(75, 19), paper);
    assert_eq!(px(76, 20), paper);
    assert_eq!(px(74, 19), 0);
    assert_eq!(px(75, 21), 0);
    assert_eq!(px(33, 1), 0);
    assert_eq!(px(34, 0), 0);
}

#[test]
fn colours_are_scaled_by_the_alpha() {
    assert_eq!(premul(0x00FF_8040, 255), 0xFFFF_8040);
    assert_eq!(premul(0x00FF_8040, 128), 0x8080_4020);
    assert_eq!(premul(0xAAFF_FFFF, 0), 0);
    assert_eq!(premul(0x0001_0203, 64), 0x4000_0000);
}

#[test]
fn an_opaque_bubble_hides_what_is_behind_it() {
    let b: Balloon = placed(60, 20, 30, 1, &mut Vec::new());
    let mut bits: Vec<u32> = vec![0x0012_3456; 184 * 72];
    blend_bubble(&mut bits, 184, 72, 1, &b);
    for y in 0..72usize {
        for x in 0..184usize {
            let inside: bool = x >= 34 && x < 118 && y >= 1 && y < 21;
            let want: u32 = if inside { 0xFF12_3456 } else { 0x0012_3456 };
            assert_eq!(bits[y * 184 + x], want);
        }
    }
}

#[test]
fn a_fading_bubble_keeps_the_space_beside_its_tail_clear() {
    let b: Balloon = placed(60, 1, 30, 1, &mut Vec::new());
    assert_eq!(b.alpha, 111);
    let mut bits: Vec<u32> = vec![0; 184 * 72];
    draw_bubble(&mut bits, 184, 72, 1, &b);
    blend_bubble(&mut bits, 184, 72, 1, &b);
    assert_eq!(bits[184 * 5 + 40], premul(0x00FC_FCFA, 111));
    assert_eq!(bits[184 * 19 + 75], premul(0x00FC_FCFA, 111));
    assert_eq!(bits[184 * 19 + 40], 0);
    // A black pixel of the box is text, and fades too.
    let mut dark: Vec<u32> = vec![0; 184 * 72];
    blend_bubble(&mut dark, 184, 72, 1, &b);
    assert_eq!(dark[184 * 5 + 40], 111 << 24);
    assert_eq!(dark[184 * 19 + 40], 0);
}
