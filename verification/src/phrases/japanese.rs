//! Japanese phrases.

use crate::phrases::pet_pool;
use crate::phrases::GirlLines;
use crate::phrases::PetLines;
use crate::phrases::Pool;
use crate::phrases::{girl_lines, marked, pet_lines, told_apart};
use vstd::prelude::*;

verus! {

pub const CAT: PetLines = (
    ["なに？", "…べつに嬉しくないし", "みてるの？", "ひま？", "なでる気？"],
    ["やめてよね", "…ふん", "もう一回？しょうがないにゃ", "なに用？", "ま、いいけど"],
    ["zzz…", "ひまだにゃ", "…", "のびーっ"],
    ["そろそろ気をつけたら？", "8割こえたにゃ", "ちょっと多いんじゃない"],
    ["やばいにゃ！", "もう限界だってば！", "9割こえた、知らないよ"],
    ["…おつかれ", "ま、がんばったんじゃない", "ひと休みしたら？"],
    ["いい調子じゃない", "まだ余裕でしょ", "ふん、悪くないね"],
);

pub const DOG: PetLines = (
    ["なになに！？", "あそぶ！？", "みて！みて！", "わくわく！", "こっちこっち！"],
    ["やったー！！", "もっとなでて〜！！", "わーい🐾", "うれしー！", "もう一回！もう一回！"],
    ["たいくつだワン", "あそぼー！", "そわそわ…", "おさんぽ行きたい！"],
    ["そろそろ気をつけて！", "8割こえたよ！", "ちょっと多いかも！"],
    ["たいへんだワン！", "もうすぐ限界だよー！", "9割！きをつけて！"],
    ["きょうもがんばったね！", "おつかれさま！", "えらいぞ！"],
    ["いい調子だワン！", "その調子その調子！", "がんばってるね！"],
);

pub const GIRL: GirlLines = (
    ["やっほー♪", "どうしたの？", "こっち見てる？"],
    ["きゃっ♪", "なになに？", "えへへ"],
    ["ふんふん♪", "ひまだなあ", "…"],
    ["8割こえちゃった…", "そろそろ注意してね？", "ちょっとペース速いかも"],
    ["もう9割っ…！", "み、見ないで〜！", "限界きちゃう！"],
    ["おつかれさま♪", "今日もがんばったね", "ひと休みしよ？"],
    ["いい調子だよ♪", "その調子！", "まだ余裕だね"],
);

/// What stands before and after the time in a forecast by the cat, the dog and the girl.
pub const FORECAST: [(&'static str, &'static str); 3] = [
    ("このペースだと", "に上限かも…"),
    ("このままだと", "で限界だワン！"),
    ("このペースだと", "には危ないかも…"),
];

/// The phrases of the cat or the dog on an occasion.
pub fn ja_pool(is_cat: bool, pool: Pool) -> (r: &'static [&'static str])
    ensures
        r@ == pet_lines(if is_cat { CAT } else { DOG }, pool),
{
    if is_cat {
        pet_pool(&CAT, pool)
    } else {
        pet_pool(&DOG, pool)
    }
}

pub proof fn lemma_cat_apart(pool: Pool)
    ensures
        told_apart(pet_lines(CAT, pool)),
{
    assert(told_apart(CAT.0@)) by {
        reveal_strlit("なに？");
        assert(marked(CAT.0@[0], 3, 0, 'な'));
        reveal_strlit("…べつに嬉しくないし");
        assert(marked(CAT.0@[1], 10, 0, '…'));
        reveal_strlit("みてるの？");
        assert(marked(CAT.0@[2], 5, 0, 'み'));
        reveal_strlit("ひま？");
        assert(marked(CAT.0@[3], 3, 0, 'ひ'));
        reveal_strlit("なでる気？");
        assert(marked(CAT.0@[4], 5, 0, 'な'));
    }
    assert(told_apart(CAT.1@)) by {
        reveal_strlit("やめてよね");
        assert(marked(CAT.1@[0], 5, 0, 'や'));
        reveal_strlit("…ふん");
        assert(marked(CAT.1@[1], 3, 0, '…'));
        reveal_strlit("もう一回？しょうがないにゃ");
        assert(marked(CAT.1@[2], 13, 0, 'も'));
        reveal_strlit("なに用？");
        assert(marked(CAT.1@[3], 4, 0, 'な'));
        reveal_strlit("ま、いいけど");
        assert(marked(CAT.1@[4], 6, 0, 'ま'));
    }
    assert(told_apart(CAT.2@)) by {
        reveal_strlit("zzz…");
        assert(marked(CAT.2@[0], 4, 0, 'z'));
        reveal_strlit("ひまだにゃ");
        assert(marked(CAT.2@[1], 5, 0, 'ひ'));
        reveal_strlit("…");
        assert(marked(CAT.2@[2], 1, 0, '…'));
        reveal_strlit("のびーっ");
        assert(marked(CAT.2@[3], 4, 0, 'の'));
    }
    assert(told_apart(CAT.3@)) by {
        reveal_strlit("そろそろ気をつけたら？");
        assert(marked(CAT.3@[0], 11, 0, 'そ'));
        reveal_strlit("8割こえたにゃ");
        assert(marked(CAT.3@[1], 7, 0, '8'));
        reveal_strlit("ちょっと多いんじゃない");
        assert(marked(CAT.3@[2], 11, 0, 'ち'));
    }
    assert(told_apart(CAT.4@)) by {
        reveal_strlit("やばいにゃ！");
        assert(marked(CAT.4@[0], 6, 0, 'や'));
        reveal_strlit("もう限界だってば！");
        assert(marked(CAT.4@[1], 9, 0, 'も'));
        reveal_strlit("9割こえた、知らないよ");
        assert(marked(CAT.4@[2], 11, 0, '9'));
    }
    assert(told_apart(CAT.5@)) by {
        reveal_strlit("…おつかれ");
        assert(marked(CAT.5@[0], 5, 0, '…'));
        reveal_strlit("ま、がんばったんじゃない");
        assert(marked(CAT.5@[1], 12, 0, 'ま'));
        reveal_strlit("ひと休みしたら？");
        assert(marked(CAT.5@[2], 8, 0, 'ひ'));
    }
    assert(told_apart(CAT.6@)) by {
        reveal_strlit("いい調子じゃない");
        assert(marked(CAT.6@[0], 8, 0, 'い'));
        reveal_strlit("まだ余裕でしょ");
        assert(marked(CAT.6@[1], 7, 0, 'ま'));
        reveal_strlit("ふん、悪くないね");
        assert(marked(CAT.6@[2], 8, 0, 'ふ'));
    }
}

pub proof fn lemma_dog_apart(pool: Pool)
    ensures
        told_apart(pet_lines(DOG, pool)),
{
    assert(told_apart(DOG.0@)) by {
        reveal_strlit("なになに！？");
        assert(marked(DOG.0@[0], 6, 0, 'な'));
        reveal_strlit("あそぶ！？");
        assert(marked(DOG.0@[1], 5, 0, 'あ'));
        reveal_strlit("みて！みて！");
        assert(marked(DOG.0@[2], 6, 0, 'み'));
        reveal_strlit("わくわく！");
        assert(marked(DOG.0@[3], 5, 0, 'わ'));
        reveal_strlit("こっちこっち！");
        assert(marked(DOG.0@[4], 7, 0, 'こ'));
    }
    assert(told_apart(DOG.1@)) by {
        reveal_strlit("やったー！！");
        assert(marked(DOG.1@[0], 6, 0, 'や'));
        reveal_strlit("もっとなでて〜！！");
        assert(marked(DOG.1@[1], 9, 0, 'も'));
        reveal_strlit("わーい🐾");
        assert(marked(DOG.1@[2], 4, 0, 'わ'));
        reveal_strlit("うれしー！");
        assert(marked(DOG.1@[3], 5, 0, 'う'));
        reveal_strlit("もう一回！もう一回！");
        assert(marked(DOG.1@[4], 10, 0, 'も'));
    }
    assert(told_apart(DOG.2@)) by {
        reveal_strlit("たいくつだワン");
        assert(marked(DOG.2@[0], 7, 0, 'た'));
        reveal_strlit("あそぼー！");
        assert(marked(DOG.2@[1], 5, 0, 'あ'));
        reveal_strlit("そわそわ…");
        assert(marked(DOG.2@[2], 5, 0, 'そ'));
        reveal_strlit("おさんぽ行きたい！");
        assert(marked(DOG.2@[3], 9, 0, 'お'));
    }
    assert(told_apart(DOG.3@)) by {
        reveal_strlit("そろそろ気をつけて！");
        assert(marked(DOG.3@[0], 10, 0, 'そ'));
        reveal_strlit("8割こえたよ！");
        assert(marked(DOG.3@[1], 7, 0, '8'));
        reveal_strlit("ちょっと多いかも！");
        assert(marked(DOG.3@[2], 9, 0, 'ち'));
    }
    assert(told_apart(DOG.4@)) by {
        reveal_strlit("たいへんだワン！");
        assert(marked(DOG.4@[0], 8, 0, 'た'));
        reveal_strlit("もうすぐ限界だよー！");
        assert(marked(DOG.4@[1], 10, 0, 'も'));
        reveal_strlit("9割！きをつけて！");
        assert(marked(DOG.4@[2], 9, 0, '9'));
    }
    assert(told_apart(DOG.5@)) by {
        reveal_strlit("きょうもがんばったね！");
        assert(marked(DOG.5@[0], 11, 0, 'き'));
        reveal_strlit("おつかれさま！");
        assert(marked(DOG.5@[1], 7, 0, 'お'));
        reveal_strlit("えらいぞ！");
        assert(marked(DOG.5@[2], 5, 0, 'え'));
    }
    assert(told_apart(DOG.6@)) by {
        reveal_strlit("いい調子だワン！");
        assert(marked(DOG.6@[0], 8, 0, 'い'));
        reveal_strlit("その調子その調子！");
        assert(marked(DOG.6@[1], 9, 0, 'そ'));
        reveal_strlit("がんばってるね！");
        assert(marked(DOG.6@[2], 8, 0, 'が'));
    }
}

pub proof fn lemma_voices(pool: Pool)
    ensures
        pet_lines(CAT, pool)[0]@ != pet_lines(DOG, pool)[0]@,
{
    match pool {
        Pool::Hover => {
            reveal_strlit("なに？");
            reveal_strlit("なになに！？");
            assert(marked(CAT.0@[0], 3, 0, 'な'));
            assert(marked(DOG.0@[0], 6, 0, 'な'));
        },
        Pool::Click => {
            reveal_strlit("やめてよね");
            reveal_strlit("やったー！！");
            assert(marked(CAT.1@[0], 5, 0, 'や'));
            assert(marked(DOG.1@[0], 6, 0, 'や'));
        },
        Pool::Idle => {
            reveal_strlit("zzz…");
            reveal_strlit("たいくつだワン");
            assert(marked(CAT.2@[0], 4, 0, 'z'));
            assert(marked(DOG.2@[0], 7, 0, 'た'));
        },
        Pool::Soft => {
            reveal_strlit("そろそろ気をつけたら？");
            reveal_strlit("そろそろ気をつけて！");
            assert(marked(CAT.3@[0], 11, 0, 'そ'));
            assert(marked(DOG.3@[0], 10, 0, 'そ'));
        },
        Pool::Urgent => {
            reveal_strlit("やばいにゃ！");
            reveal_strlit("たいへんだワン！");
            assert(marked(CAT.4@[0], 6, 0, 'や'));
            assert(marked(DOG.4@[0], 8, 0, 'た'));
        },
        Pool::Rest => {
            reveal_strlit("…おつかれ");
            reveal_strlit("きょうもがんばったね！");
            assert(marked(CAT.5@[0], 5, 0, '…'));
            assert(marked(DOG.5@[0], 11, 0, 'き'));
        },
        Pool::Encourage => {
            reveal_strlit("いい調子じゃない");
            reveal_strlit("いい調子だワン！");
            assert(marked(CAT.6@[0], 8, 4, 'じ'));
            assert(marked(DOG.6@[0], 8, 4, 'だ'));
        },
    }
}

pub proof fn lemma_girl_apart(pool: Pool)
    ensures
        told_apart(girl_lines(GIRL, pool)),
{
    assert(told_apart(GIRL.0@)) by {
        reveal_strlit("やっほー♪");
        assert(marked(GIRL.0@[0], 5, 0, 'や'));
        reveal_strlit("どうしたの？");
        assert(marked(GIRL.0@[1], 6, 0, 'ど'));
        reveal_strlit("こっち見てる？");
        assert(marked(GIRL.0@[2], 7, 0, 'こ'));
    }
    assert(told_apart(GIRL.1@)) by {
        reveal_strlit("きゃっ♪");
        assert(marked(GIRL.1@[0], 4, 0, 'き'));
        reveal_strlit("なになに？");
        assert(marked(GIRL.1@[1], 5, 0, 'な'));
        reveal_strlit("えへへ");
        assert(marked(GIRL.1@[2], 3, 0, 'え'));
    }
    assert(told_apart(GIRL.2@)) by {
        reveal_strlit("ふんふん♪");
        assert(marked(GIRL.2@[0], 5, 0, 'ふ'));
        reveal_strlit("ひまだなあ");
        assert(marked(GIRL.2@[1], 5, 0, 'ひ'));
        reveal_strlit("…");
        assert(marked(GIRL.2@[2], 1, 0, '…'));
    }
    assert(told_apart(GIRL.3@)) by {
        reveal_strlit("8割こえちゃった…");
        assert(marked(GIRL.3@[0], 9, 0, '8'));
        reveal_strlit("そろそろ注意してね？");
        assert(marked(GIRL.3@[1], 10, 0, 'そ'));
        reveal_strlit("ちょっとペース速いかも");
        assert(marked(GIRL.3@[2], 11, 0, 'ち'));
    }
    assert(told_apart(GIRL.4@)) by {
        reveal_strlit("もう9割っ…！");
        assert(marked(GIRL.4@[0], 7, 0, 'も'));
        reveal_strlit("み、見ないで〜！");
        assert(marked(GIRL.4@[1], 8, 0, 'み'));
        reveal_strlit("限界きちゃう！");
        assert(marked(GIRL.4@[2], 7, 0, '限'));
    }
    assert(told_apart(GIRL.5@)) by {
        reveal_strlit("おつかれさま♪");
        assert(marked(GIRL.5@[0], 7, 0, 'お'));
        reveal_strlit("今日もがんばったね");
        assert(marked(GIRL.5@[1], 9, 0, '今'));
        reveal_strlit("ひと休みしよ？");
        assert(marked(GIRL.5@[2], 7, 0, 'ひ'));
    }
    assert(told_apart(GIRL.6@)) by {
        reveal_strlit("いい調子だよ♪");
        assert(marked(GIRL.6@[0], 7, 0, 'い'));
        reveal_strlit("その調子！");
        assert(marked(GIRL.6@[1], 5, 0, 'そ'));
        reveal_strlit("まだ余裕だね");
        assert(marked(GIRL.6@[2], 6, 0, 'ま'));
    }
}

} // verus!
