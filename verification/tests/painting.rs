use usage_companion::canvas::{bgra, clear, fill_block, paint, Block};
use usage_companion::critter::Pose;
use usage_companion::girl::draw_girl;
use usage_companion::kind::CharacterKind;
use usage_companion::mood::Band;
use usage_companion::scene::{draw_scene, Scene, Snapshot};
use usage_companion::sprite::{
    anim_for, character_blocks, draw_character, flip, palette, Anim, Part, Spot, Tag,
};

#[test]
fn pixels_hold_alpha_red_green_and_blue() {
    assert_eq!(bgra(1, 2, 3), 0xFF01_0203);
    assert_eq!(bgra(255, 0, 128), 0xFFFF_0080);
}

#[test]
fn blocks_are_clipped_to_the_window() {
    let mut bits: Vec<u32> = vec![0; 12];
    fill_block(&mut bits, 4, 3, 2, -1, 5, 3, 7);
    assert_eq!(bits, vec![0, 0, 7, 7, 0, 0, 7, 7, 0, 0, 0, 0]);
    fill_block(&mut bits, 4, 3, -9, 2, 10, 40, 5);
    assert_eq!(bits, vec![0, 0, 7, 7, 0, 0, 7, 7, 5, 0, 0, 0]);
}

#[test]
fn blocks_outside_or_without_extent_paint_nothing() {
    let mut bits: Vec<u32> = vec![1; 6];
    fill_block(&mut bits, 3, 2, 3, 0, 2, 2, 9);
    fill_block(&mut bits, 3, 2, 0, -5, 3, 5, 9);
    fill_block(&mut bits, 3, 2, 0, 0, 0, 2, 9);
    fill_block(&mut bits, 3, 2, 2, 0, -2, 2, 9);
    assert_eq!(bits, vec![1; 6]);
    let mut none: Vec<u32> = Vec::new();
    fill_block(&mut none, 0, 5, 0, 0, 2, 2, 9);
    fill_block(&mut none, -1, -1, 0, 0, 2, 2, 9);
    assert_eq!(none, Vec::new());
}

#[test]
fn later_blocks_cover_earlier_ones() {
    let mut bits: Vec<u32> = vec![3; 4];
    clear(&mut bits, 0);
    assert_eq!(bits, vec![0; 4]);
    let plan: Vec<Block> = vec![
        Block { x: 0, y: 0, bw: 3, bh: 1, color: 1 },
        Block { x: 1, y: 0, bw: 1, bh: 1, color: 2 },
    ];
    paint(&mut bits, 4, 1, &plan);
    assert_eq!(bits, vec![1, 2, 1, 0]);
}

#[test]
fn painting_goes_on_where_it_stopped() {
    let first: Vec<Block> = vec![Block { x: 0, y: 0, bw: 2, bh: 2, color: 5 }];
    let second: Vec<Block> = vec![Block { x: 1, y: 1, bw: 4, bh: 4, color: 6 }];
    let both: Vec<Block> = vec![first[0], second[0]];
    let mut bits: Vec<u32> = vec![0; 9];
    paint(&mut bits, 3, 3, &first);
    paint(&mut bits, 3, 3, &second);
    let mut at_once: Vec<u32> = vec![0; 9];
    paint(&mut at_once, 3, 3, &both);
    assert_eq!(bits, at_once);
    assert_eq!(bits, vec![5, 5, 0, 5, 6, 6, 0, 6, 6]);
}

#[test]
fn coats_have_their_colours() {
    assert_eq!(palette(true, 0, Part::Body), bgra(235, 160, 80));
    assert_eq!(palette(true, 1, Part::Body), bgra(150, 154, 160));
    assert_eq!(palette(false, 0, Part::Nose), bgra(60, 45, 42));
    assert_eq!(palette(false, 1, Part::Light), bgra(140, 140, 150));
    assert_eq!(palette(false, 7, Part::Ear), bgra(70, 70, 78));
    assert_eq!(palette(true, 0, Part::Buckle), palette(false, 1, Part::Buckle));
}

#[test]
fn the_cat_has_a_block_more_of_tail_than_the_dog() {
    let tails = |is_cat: bool| {
        character_blocks(is_cat).iter().filter(|row| row.5 == Tag::Tail).count()
    };
    assert_eq!(tails(true), 3);
    assert_eq!(tails(false), 2);
    assert_eq!(character_blocks(true).len(), 24);
    assert_eq!(character_blocks(false).len(), 20);
}

#[test]
fn poses_move_the_parts() {
    let rest = Anim {
        body_dy: 0,
        ear_dy: 0,
        leg_front_dx: 0,
        leg_back_dx: 0,
        tail_dy: 0,
        blink: false,
    };
    assert_eq!(anim_for(Pose::Idle, 0, 2), rest);
    assert_eq!(anim_for(Pose::Idle, 8, 1), Anim { body_dy: 1, tail_dy: -1, blink: true, ..rest });
    assert_eq!(
        anim_for(Pose::Walk, 0, 0),
        Anim { leg_front_dx: 2, leg_back_dx: -2, tail_dy: -1, ..rest },
    );
    assert_eq!(anim_for(Pose::Walk, 3, 0), Anim { body_dy: 1, ..rest });
    assert_eq!(
        anim_for(Pose::Walk, 4, 0),
        Anim { leg_front_dx: -2, leg_back_dx: 2, ..rest },
    );
    assert_eq!(anim_for(Pose::React, 2, 0), Anim { ear_dy: -2, tail_dy: -1, ..rest });
    assert_eq!(anim_for(Pose::Hover, 4, 0), Anim { ear_dy: -1, body_dy: 1, tail_dy: -2, ..rest });
    assert_eq!(
        anim_for(Pose::Clicked, 77, 0),
        Anim { body_dy: -4, ear_dy: -2, tail_dy: -3, ..rest },
    );
}

#[test]
fn turning_round_twice_changes_no_column() {
    let left = Spot { ox: 0, oy: 0, u: 1, mirror: true };
    let right = Spot { ox: 0, oy: 0, u: 1, mirror: false };
    assert_eq!(flip(&right, 5, 4), 5);
    assert_eq!(flip(&left, 5, 4), 23);
    assert_eq!(flip(&left, 23, 4), 5);
}

#[test]
fn legs_stay_planted_in_a_jump() {
    let spot = Spot { ox: 0, oy: 0, u: 1, mirror: false };
    let jump: Anim = anim_for(Pose::Clicked, 0, 9);
    let mut bits: Vec<u32> = vec![0; 32 * 32];
    draw_character(&mut bits, 32, 32, true, 0, &spot, &jump, Band::Low);
    let body: u32 = palette(true, 0, Part::Body);
    // The legs, and above them the gap that the jump leaves.
    assert_eq!(bits[28 * 32 + 10], body);
    assert_eq!(bits[30 * 32 + 13], body);
    assert_eq!(bits[31 * 32 + 10], 0);
    assert_eq!(bits[27 * 32 + 10], 0);
    assert_eq!(bits[23 * 32 + 10], body);
}

#[test]
fn the_girl_keeps_her_feet_on_the_ground() {
    let spot = Spot { ox: 0, oy: 0, u: 1, mirror: false };
    let foot: u32 = bgra(214, 172, 148);
    for pose in [Pose::Idle, Pose::Walk, Pose::React, Pose::Hover, Pose::Clicked] {
        for frame in 0..24u64 {
            let mut bits: Vec<u32> = vec![0; 32 * 32];
            let anim: Anim = anim_for(pose, frame, 9);
            draw_girl(&mut bits, 32, 32, &spot, &anim, Band::Low, 0, 0, 0, frame);
            let rows: Vec<usize> =
                (0..32usize).filter(|y| bits[y * 32..y * 32 + 32].contains(&foot)).collect();
            assert_eq!(rows, vec![30]);
        }
    }
}

fn girl_alone(u: i32, mirror: bool, pose: Pose, frame: u64, kiss: u32) -> Vec<u32> {
    let spot = Spot { ox: 0, oy: 0, u, mirror };
    let mut bits: Vec<u32> = vec![0; (32 * 32 * u * u) as usize];
    let anim: Anim = anim_for(pose, frame, 9);
    draw_girl(&mut bits, 32 * u, 32 * u, &spot, &anim, Band::Urgent, 80, kiss, 26, frame);
    bits
}

fn pet_alone(u: i32, mirror: bool, is_cat: bool, pose: Pose, frame: u64, mood: Band) -> Vec<u32> {
    let spot = Spot { ox: 0, oy: 0, u, mirror };
    let mut bits: Vec<u32> = vec![0; (32 * 32 * u * u) as usize];
    let anim: Anim = anim_for(pose, frame, 1);
    draw_character(&mut bits, 32 * u, 32 * u, is_cat, 1, &spot, &anim, mood);
    bits
}

/// The picture turned round, row by row.
fn turned(bits: &[u32], w: usize) -> Vec<u32> {
    bits.chunks(w).flat_map(|row| row.iter().rev().copied()).collect()
}

/// The picture with every pixel grown to a square.
fn grown(bits: &[u32], u: usize) -> Vec<u32> {
    let w: usize = 32 * u;
    (0..w * w).map(|i| bits[i / w / u * 32 + i % w / u]).collect()
}

const POSES: [Pose; 5] = [Pose::Idle, Pose::Walk, Pose::React, Pose::Hover, Pose::Clicked];

#[test]
fn the_girl_facing_left_is_the_mirror_image() {
    for pose in POSES {
        for frame in 0..12u64 {
            for kiss in [0u32, 26, 20, 3] {
                let right: Vec<u32> = girl_alone(1, false, pose, frame, kiss);
                assert_eq!(girl_alone(1, true, pose, frame, kiss), turned(&right, 32));
            }
        }
    }
    let left: Vec<u32> = girl_alone(1, true, Pose::Idle, 0, 0);
    assert_eq!(left[27 * 32 + 12], bgra(255, 222, 196));
}

#[test]
fn large_hearts_wobble_to_her_facing_side() {
    let shine: u32 = bgra(255, 156, 184);
    let column = |mirror: bool| {
        let bits: Vec<u32> = girl_alone(1, mirror, Pose::Clicked, 0, 26);
        bits.iter().position(|px| *px == shine).map(|i| i % 32)
    };
    assert_eq!(column(false), Some(17));
    assert_eq!(column(true), Some(14));
}

#[test]
fn hearts_of_a_long_kiss_rise_out_of_sight() {
    let spot = Spot { ox: 0, oy: 0, u: 3, mirror: false };
    let anim: Anim = anim_for(Pose::Idle, 0, 9);
    let drawn = |kiss: u32, kiss_max: u32, frame: u64| {
        let mut bits: Vec<u32> = vec![0; 96 * 96];
        draw_girl(&mut bits, 96, 96, &spot, &anim, Band::Low, 0, kiss, kiss_max, frame);
        bits
    };
    let heart: u32 = bgra(240, 92, 132);
    assert!(drawn(1, 21, 0).contains(&heart));
    assert!(!drawn(1, 300_000_001, 0).contains(&heart));
    // Without a kiss neither the last one nor the frame matters.
    assert_eq!(drawn(0, u32::MAX, 5), drawn(0, 0, 8));
}

#[test]
fn pets_facing_left_are_mirror_images() {
    for pose in POSES {
        for frame in 0..12u64 {
            for (is_cat, mood) in [
                (true, Band::Low),
                (true, Band::Soft),
                (true, Band::Urgent),
                (false, Band::Low),
                (false, Band::Soft),
            ] {
                let right: Vec<u32> = pet_alone(2, false, is_cat, pose, frame, mood);
                assert_eq!(pet_alone(2, true, is_cat, pose, frame, mood), turned(&right, 64));
            }
        }
    }
    // The alarmed dog's mouth stays in its column.
    let right: Vec<u32> = pet_alone(1, false, false, Pose::Idle, 0, Band::Urgent);
    assert_ne!(pet_alone(1, true, false, Pose::Idle, 0, Band::Urgent), turned(&right, 32));
}

#[test]
fn scaled_sprites_are_crisp() {
    for u in [2i32, 3, 5] {
        for mirror in [false, true] {
            let small: Vec<u32> = girl_alone(1, mirror, Pose::Walk, 4, 15);
            assert_eq!(girl_alone(u, mirror, Pose::Walk, 4, 15), grown(&small, u as usize));
            for is_cat in [false, true] {
                let small: Vec<u32> = pet_alone(1, mirror, is_cat, Pose::Idle, 7, Band::Urgent);
                let large: Vec<u32> = pet_alone(u, mirror, is_cat, Pose::Idle, 7, Band::Urgent);
                assert_eq!(large, grown(&small, u as usize));
                assert!(large.iter().all(|px| *px == 0 || *px >= 0xFF00_0000));
            }
        }
    }
}

#[test]
fn hearts_rise_while_the_girl_blows_a_kiss() {
    let spot = Spot { ox: 0, oy: 20, u: 1, mirror: false };
    let anim: Anim = anim_for(Pose::Idle, 0, 9);
    let heart: u32 = bgra(240, 92, 132);
    let top = |kiss: u32| {
        let mut bits: Vec<u32> = vec![0; 64 * 64];
        draw_girl(&mut bits, 64, 64, &spot, &anim, Band::Low, 0, kiss, 26, 1);
        bits.iter().position(|px| *px == heart).map(|i| i / 64)
    };
    assert_eq!(top(0), None);
    assert_eq!(top(26), Some(27));
    assert_eq!(top(24), Some(26));
    assert_eq!(top(16), Some(22));
}

type Sight = (i64, i32, Pose, u8, u32, u32, u32);

type Golden = (CharacterKind, i32, u64, i32, Band, Sight, Sight, Sight, u64);

fn snap(s: Sight, mood: Band) -> Snapshot {
    Snapshot {
        x: s.0,
        dir: s.1,
        pose: s.2,
        variant: s.3,
        blink_ctr: s.4,
        mood,
        bubble: None,
        kiss: s.5,
        kiss_max: s.6,
    }
}

fn checksum(bits: &[u32]) -> u64 {
    let mut sum: u64 = 0xcbf2_9ce4_8422_2325;
    for px in bits {
        sum = (sum ^ *px as u64).wrapping_mul(0x100_0000_01b3);
    }
    sum
}

/// Scenes in all poses and moods, with the checksums of their pixels.
const GOLDEN: [Golden; 29] = [
    (CharacterKind::Both, 1, 0, 0, Band::Low, (171966464, -1, Pose::Idle, 0, 1, 0, 0), (2357198848, 1, Pose::React, 0, 0, 0, 0), (171966464, -1, Pose::Idle, 0, 1, 0, 0), 0xbc14fa146dca44eb),
    (CharacterKind::Both, 2, 5, 0, Band::Soft, (188743680, 1, Pose::Idle, 1, 1, 0, 0), (2239758336, -1, Pose::Hover, 0, 0, 0, 0), (188743680, 1, Pose::Idle, 1, 1, 0, 0), 0x4a0cc16cd661b6b5),
    (CharacterKind::Both, 3, 6, 0, Band::Urgent, (205520896, -1, Pose::Idle, 0, 5, 0, 0), (2122317824, -1, Pose::Clicked, 1, 9, 0, 0), (205520896, -1, Pose::Idle, 0, 5, 0, 0), 0xb6bc5efa5421ac88),
    (CharacterKind::Both, 1, 9, 0, Band::Low, (222298112, 1, Pose::Walk, 1, 5, 0, 0), (2004877312, 1, Pose::Idle, 1, 9, 0, 0), (222298112, 1, Pose::Walk, 1, 5, 0, 0), 0xab4498ce2c40a4bd),
    (CharacterKind::Both, 2, 14, 0, Band::Soft, (239075328, -1, Pose::Walk, 0, 1, 0, 0), (1887436800, -1, Pose::Walk, 0, 9, 0, 0), (239075328, -1, Pose::Walk, 0, 1, 0, 0), 0x3f5f113901193065),
    (CharacterKind::Both, 3, 27, 0, Band::Urgent, (255852544, 1, Pose::Walk, 1, 1, 0, 0), (1769996288, -1, Pose::React, 0, 0, 0, 0), (255852544, 1, Pose::Walk, 1, 1, 0, 0), 0xa07872f614dde16b),
    (CharacterKind::Both, 1, 0, 0, Band::Low, (272629760, -1, Pose::React, 0, 5, 0, 0), (1652555776, 1, Pose::Hover, 1, 0, 0, 0), (272629760, -1, Pose::React, 0, 5, 0, 0), 0xcc170ad66991d6cb),
    (CharacterKind::Both, 2, 5, 0, Band::Soft, (289406976, 1, Pose::React, 1, 5, 0, 0), (1535115264, -1, Pose::Clicked, 1, 9, 0, 0), (289406976, 1, Pose::React, 1, 5, 0, 0), 0x9d4fbc446f203ee5),
    (CharacterKind::Both, 3, 6, 0, Band::Urgent, (306184192, -1, Pose::React, 0, 1, 0, 0), (1417674752, -1, Pose::Idle, 0, 9, 0, 0), (306184192, -1, Pose::React, 0, 1, 0, 0), 0x5a91a52616febad7),
    (CharacterKind::Both, 1, 9, 0, Band::Low, (322961408, 1, Pose::Hover, 1, 1, 0, 0), (1300234240, 1, Pose::Walk, 0, 9, 0, 0), (322961408, 1, Pose::Hover, 1, 1, 0, 0), 0x964c6e8257f3ca31),
    (CharacterKind::Both, 2, 14, 0, Band::Soft, (339738624, -1, Pose::Hover, 0, 5, 0, 0), (1182793728, -1, Pose::React, 1, 0, 0, 0), (339738624, -1, Pose::Hover, 0, 5, 0, 0), 0x0174d5f68390b945),
    (CharacterKind::Both, 3, 27, 0, Band::Urgent, (356515840, 1, Pose::Hover, 1, 5, 0, 0), (1065353216, -1, Pose::Hover, 1, 0, 0, 0), (356515840, 1, Pose::Hover, 1, 5, 0, 0), 0x59ff7fd6cdd960ce),
    (CharacterKind::Both, 1, 0, 0, Band::Low, (373293056, -1, Pose::Clicked, 0, 1, 0, 0), (947912704, 1, Pose::Clicked, 0, 9, 0, 0), (373293056, -1, Pose::Clicked, 0, 1, 0, 0), 0x29f7ce35f0c7d88b),
    (CharacterKind::Both, 2, 5, 0, Band::Soft, (390070272, 1, Pose::Clicked, 1, 1, 0, 0), (830472192, -1, Pose::Idle, 0, 9, 0, 0), (390070272, 1, Pose::Clicked, 1, 1, 0, 0), 0xe8a99cc33767d4c5),
    (CharacterKind::Both, 3, 6, 0, Band::Urgent, (406847488, -1, Pose::Clicked, 0, 5, 0, 0), (713031680, -1, Pose::Walk, 1, 9, 0, 0), (406847488, -1, Pose::Clicked, 0, 5, 0, 0), 0x0164f1d850d3b858),
    (CharacterKind::Girl, 1, 1, 0, Band::Low, (62914560, -1, Pose::Idle, 0, 1, 0, 0), (62914560, -1, Pose::Idle, 0, 1, 0, 0), (62914560, -1, Pose::Idle, 0, 1, 0, 0), 0x9ddea0bec653696d),
    (CharacterKind::Girl, 2, 4, 0, Band::Soft, (264241152, 1, Pose::Walk, 0, 7, 26, 26), (264241152, 1, Pose::Walk, 0, 7, 26, 26), (264241152, 1, Pose::Walk, 0, 7, 26, 26), 0x30080339ecfa4659),
    (CharacterKind::Girl, 3, 8, 0, Band::Urgent, (465567744, -1, Pose::React, 0, 7, 22, 26), (465567744, -1, Pose::React, 0, 7, 22, 26), (465567744, -1, Pose::React, 0, 7, 22, 26), 0x9398cebd887a092b),
    (CharacterKind::Girl, 1, 10, 60, Band::Low, (666894336, 1, Pose::Hover, 0, 1, 18, 26), (666894336, 1, Pose::Hover, 0, 1, 18, 26), (666894336, 1, Pose::Hover, 0, 1, 18, 26), 0x801a36bd54b8efca),
    (CharacterKind::Girl, 2, 13, 60, Band::Soft, (868220928, -1, Pose::Clicked, 0, 7, 9, 26), (868220928, -1, Pose::Clicked, 0, 7, 9, 26), (868220928, -1, Pose::Clicked, 0, 7, 9, 26), 0x18a615b642db7fb9),
    (CharacterKind::Girl, 3, 31, 60, Band::Urgent, (1069547520, 1, Pose::Idle, 0, 7, 1, 26), (1069547520, 1, Pose::Idle, 0, 7, 1, 26), (1069547520, 1, Pose::Idle, 0, 7, 1, 26), 0xd97efcd1b9337345),
    (CharacterKind::Girl, 1, 1, 75, Band::Low, (1270874112, -1, Pose::Walk, 0, 1, 0, 0), (1270874112, -1, Pose::Walk, 0, 1, 0, 0), (1270874112, -1, Pose::Walk, 0, 1, 0, 0), 0x3b80157c0280e90f),
    (CharacterKind::Girl, 2, 4, 75, Band::Soft, (1472200704, 1, Pose::React, 0, 7, 26, 26), (1472200704, 1, Pose::React, 0, 7, 26, 26), (1472200704, 1, Pose::React, 0, 7, 26, 26), 0xf5dac1b10c05336d),
    (CharacterKind::Girl, 3, 8, 75, Band::Urgent, (1673527296, -1, Pose::Hover, 0, 7, 22, 26), (1673527296, -1, Pose::Hover, 0, 7, 22, 26), (1673527296, -1, Pose::Hover, 0, 7, 22, 26), 0x5ebaf826e8d3d5b3),
    (CharacterKind::Girl, 1, 10, 95, Band::Low, (1874853888, 1, Pose::Clicked, 0, 1, 18, 26), (1874853888, 1, Pose::Clicked, 0, 1, 18, 26), (1874853888, 1, Pose::Clicked, 0, 1, 18, 26), 0x7f044a4e9f205a69),
    (CharacterKind::Girl, 2, 13, 95, Band::Soft, (2076180480, -1, Pose::Idle, 0, 7, 9, 26), (2076180480, -1, Pose::Idle, 0, 7, 9, 26), (2076180480, -1, Pose::Idle, 0, 7, 9, 26), 0x68ddd9815823dc5d),
    (CharacterKind::Girl, 3, 31, 95, Band::Urgent, (2277507072, 1, Pose::Walk, 0, 7, 1, 26), (2277507072, 1, Pose::Walk, 0, 7, 1, 26), (2277507072, 1, Pose::Walk, 0, 7, 1, 26), 0xa8e4f55c99801e45),
    (CharacterKind::Cat, 2, 0, 0, Band::Low, (0, 1, Pose::Walk, 0, 5, 0, 0), (0, 1, Pose::Walk, 0, 5, 0, 0), (0, 1, Pose::Walk, 0, 5, 0, 0), 0xe670072a0f6930dd),
    (CharacterKind::Dog, 2, 0, 0, Band::Low, (0, 1, Pose::Walk, 0, 5, 0, 0), (2550136832, -1, Pose::Walk, 1, 5, 0, 0), (0, 1, Pose::Walk, 0, 5, 0, 0), 0x410f7ab3eb30114d),
];

#[test]
fn scenes_look_as_designed() {
    for (n, (kind, u, frame, usage, mood, cat, dog, girl, sum)) in GOLDEN.into_iter().enumerate() {
        let scene = Scene {
            hwnd: 1,
            win_w: 184 * u,
            win_h: 72 * u,
            u,
            kind,
            frame,
            usage,
            cat: snap(cat, mood),
            dog: snap(dog, mood),
            girl: snap(girl, mood),
        };
        let mut bits: Vec<u32> = vec![0xABCD; (184 * 72 * u * u) as usize];
        draw_scene(&scene, &mut bits);
        assert_eq!(checksum(&bits), sum, "scene {n}");
    }
}
