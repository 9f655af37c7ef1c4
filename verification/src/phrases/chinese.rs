//! Traditional Chinese phrases.

use crate::phrases::pet_pool;
use crate::phrases::GirlLines;
use crate::phrases::PetLines;
use crate::phrases::Pool;
use crate::phrases::{girl_lines, marked, pet_lines, told_apart};
use vstd::prelude::*;

verus! {

pub const CAT: PetLines = (
    ["...你想幹嘛。", "喔，是你啊。", "在盯著我看？", "幹嘛？", "...好啦，看吧。"],
    ["非要這樣嗎。", "...哼。", "又來？隨便你。", "很煩耶。", "好吧，隨便。"],
    ["zzz...", "好無聊。", "...", "*伸懶腰*"],
    ["差不多該收手了吧？", "超過八成了喔。", "有點多耶..."],
    ["不妙喔。", "快到上限了。", "超過九成。不關我的事。"],
    ["...辛苦了。", "還不錯啦，我想。", "去休息吧。"],
    ["還行啊。", "還有餘裕呢。", "哼，不賴嘛。"],
);

pub const DOG: PetLines = (
    ["嗨嗨嗨!! 🐾", "玩嗎?? 玩嗎??", "看我看我!!", "天啊天啊!", "這邊這邊!!"],
    ["好耶好耶!!", "再一次!! 🐾", "最棒的一天!!", "再摸摸我!!", "耶!!"],
    ["好無聊汪", "來玩吧!", "*搖尾巴*", "去散步??"],
    ["小心點囉!", "超過八成了!", "好像有點多!"],
    ["糟糕!!", "快到上限了!!", "超過九成! 小心!!"],
    ["今天也辛苦了!!", "你做到了!!", "好驕傲!!"],
    ["表現很好!!", "繼續加油!!", "你可以的!!"],
);

pub const GIRL: GirlLines = (
    ["哈囉♪", "怎麼了？", "在看我嗎？"],
    ["呀♪", "嗯？嘿嘿", "幹嘛呀？"],
    ["哼哼♪", "有點無聊", "..."],
    ["超過八成了...", "小心一點喔？", "好像有點快"],
    ["超過九成了...！", "別、別看啦～！", "快到極限了！"],
    ["辛苦了♪", "今天表現很棒", "休息一下？"],
    ["狀態很好♪", "繼續加油！", "還有餘裕呢"],
);

/// What stands before and after the time in a forecast by the cat, the dog and the girl.
pub const FORECAST: [(&'static str, &'static str); 3] = [
    ("照這速度…", "就到頂了。"),
    ("糟糕，", "就100%！！"),
    ("照這速度…", "就危險了！"),
];

/// The phrases of the cat or the dog on an occasion.
pub fn zh_pool(is_cat: bool, pool: Pool) -> (r: &'static [&'static str])
    ensures
        r@ == pet_lines(if is_cat { CAT } else { DOG }, pool),
{
    if is_cat {
        pet_pool(&CAT, pool)
    } else {
        pet_pool(&DOG, pool)
    }
}

pub proof fn lemma_cat_apart(pool: Pool)
    ensures
        told_apart(pet_lines(CAT, pool)),
{
    assert(told_apart(CAT.0@)) by {
        reveal_strlit("...你想幹嘛。");
        assert(marked(CAT.0@[0], 8, 0, '.'));
        reveal_strlit("喔，是你啊。");
        assert(marked(CAT.0@[1], 6, 0, '喔'));
        reveal_strlit("在盯著我看？");
        assert(marked(CAT.0@[2], 6, 0, '在'));
        reveal_strlit("幹嘛？");
        assert(marked(CAT.0@[3], 3, 0, '幹'));
        reveal_strlit("...好啦，看吧。");
        assert(marked(CAT.0@[4], 9, 0, '.'));
    }
    assert(told_apart(CAT.1@)) by {
        reveal_strlit("非要這樣嗎。");
        assert(marked(CAT.1@[0], 6, 0, '非'));
        reveal_strlit("...哼。");
        assert(marked(CAT.1@[1], 5, 0, '.'));
        reveal_strlit("又來？隨便你。");
        assert(marked(CAT.1@[2], 7, 0, '又'));
        reveal_strlit("很煩耶。");
        assert(marked(CAT.1@[3], 4, 0, '很'));
        reveal_strlit("好吧，隨便。");
        assert(marked(CAT.1@[4], 6, 0, '好'));
    }
    assert(told_apart(CAT.2@)) by {
        reveal_strlit("zzz...");
        assert(marked(CAT.2@[0], 6, 0, 'z'));
        reveal_strlit("好無聊。");
        assert(marked(CAT.2@[1], 4, 0, '好'));
        reveal_strlit("...");
        assert(marked(CAT.2@[2], 3, 0, '.'));
        reveal_strlit("*伸懶腰*");
        assert(marked(CAT.2@[3], 5, 0, '*'));
    }
    assert(told_apart(CAT.3@)) by {
        reveal_strlit("差不多該收手了吧？");
        assert(marked(CAT.3@[0], 9, 0, '差'));
        reveal_strlit("超過八成了喔。");
        assert(marked(CAT.3@[1], 7, 0, '超'));
        reveal_strlit("有點多耶...");
        assert(marked(CAT.3@[2], 7, 0, '有'));
    }
    assert(told_apart(CAT.4@)) by {
        reveal_strlit("不妙喔。");
        assert(marked(CAT.4@[0], 4, 0, '不'));
        reveal_strlit("快到上限了。");
        assert(marked(CAT.4@[1], 6, 0, '快'));
        reveal_strlit("超過九成。不關我的事。");
        assert(marked(CAT.4@[2], 11, 0, '超'));
    }
    assert(told_apart(CAT.5@)) by {
        reveal_strlit("...辛苦了。");
        assert(marked(CAT.5@[0], 7, 0, '.'));
        reveal_strlit("還不錯啦，我想。");
        assert(marked(CAT.5@[1], 8, 0, '還'));
        reveal_strlit("去休息吧。");
        assert(marked(CAT.5@[2], 5, 0, '去'));
    }
    assert(told_apart(CAT.6@)) by {
        reveal_strlit("還行啊。");
        assert(marked(CAT.6@[0], 4, 0, '還'));
        reveal_strlit("還有餘裕呢。");
        assert(marked(CAT.6@[1], 6, 0, '還'));
        reveal_strlit("哼，不賴嘛。");
        assert(marked(CAT.6@[2], 6, 0, '哼'));
    }
}

pub proof fn lemma_dog_apart(pool: Pool)
    ensures
        told_apart(pet_lines(DOG, pool)),
{
    assert(told_apart(DOG.0@)) by {
        reveal_strlit("嗨嗨嗨!! 🐾");
        assert(marked(DOG.0@[0], 7, 0, '嗨'));
        reveal_strlit("玩嗎?? 玩嗎??");
        assert(marked(DOG.0@[1], 9, 0, '玩'));
        reveal_strlit("看我看我!!");
        assert(marked(DOG.0@[2], 6, 0, '看'));
        reveal_strlit("天啊天啊!");
        assert(marked(DOG.0@[3], 5, 0, '天'));
        reveal_strlit("這邊這邊!!");
        assert(marked(DOG.0@[4], 6, 0, '這'));
    }
    assert(told_apart(DOG.1@)) by {
        reveal_strlit("好耶好耶!!");
        assert(marked(DOG.1@[0], 6, 0, '好'));
        reveal_strlit("再一次!! 🐾");
        assert(marked(DOG.1@[1], 7, 0, '再'));
        reveal_strlit("最棒的一天!!");
        assert(marked(DOG.1@[2], 7, 0, '最'));
        reveal_strlit("再摸摸我!!");
        assert(marked(DOG.1@[3], 6, 0, '再'));
        reveal_strlit("耶!!");
        assert(marked(DOG.1@[4], 3, 0, '耶'));
    }
    assert(told_apart(DOG.2@)) by {
        reveal_strlit("好無聊汪");
        assert(marked(DOG.2@[0], 4, 0, '好'));
        reveal_strlit("來玩吧!");
        assert(marked(DOG.2@[1], 4, 0, '來'));
        reveal_strlit("*搖尾巴*");
        assert(marked(DOG.2@[2], 5, 0, '*'));
        reveal_strlit("去散步??");
        assert(marked(DOG.2@[3], 5, 0, '去'));
    }
    assert(told_apart(DOG.3@)) by {
        reveal_strlit("小心點囉!");
        assert(marked(DOG.3@[0], 5, 0, '小'));
        reveal_strlit("超過八成了!");
        assert(marked(DOG.3@[1], 6, 0, '超'));
        reveal_strlit("好像有點多!");
        assert(marked(DOG.3@[2], 6, 0, '好'));
    }
    assert(told_apart(DOG.4@)) by {
        reveal_strlit("糟糕!!");
        assert(marked(DOG.4@[0], 4, 0, '糟'));
        reveal_strlit("快到上限了!!");
        assert(marked(DOG.4@[1], 7, 0, '快'));
        reveal_strlit("超過九成! 小心!!");
        assert(marked(DOG.4@[2], 10, 0, '超'));
    }
    assert(told_apart(DOG.5@)) by {
        reveal_strlit("今天也辛苦了!!");
        assert(marked(DOG.5@[0], 8, 0, '今'));
        reveal_strlit("你做到了!!");
        assert(marked(DOG.5@[1], 6, 0, '你'));
        reveal_strlit("好驕傲!!");
        assert(marked(DOG.5@[2], 5, 0, '好'));
    }
    assert(told_apart(DOG.6@)) by {
        reveal_strlit("表現很好!!");
        assert(marked(DOG.6@[0], 6, 0, '表'));
        reveal_strlit("繼續加油!!");
        assert(marked(DOG.6@[1], 6, 0, '繼'));
        reveal_strlit("你可以的!!");
        assert(marked(DOG.6@[2], 6, 0, '你'));
    }
}

pub proof fn lemma_voices(pool: Pool)
    ensures
        pet_lines(CAT, pool)[0]@ != pet_lines(DOG, pool)[0]@,
{
    match pool {
        Pool::Hover => {
            reveal_strlit("...你想幹嘛。");
            reveal_strlit("嗨嗨嗨!! 🐾");
            assert(marked(CAT.0@[0], 8, 0, '.'));
            assert(marked(DOG.0@[0], 7, 0, '嗨'));
        },
        Pool::Click => {
            reveal_strlit("非要這樣嗎。");
            reveal_strlit("好耶好耶!!");
            assert(marked(CAT.1@[0], 6, 0, '非'));
            assert(marked(DOG.1@[0], 6, 0, '好'));
        },
        Pool::Idle => {
            reveal_strlit("zzz...");
            reveal_strlit("好無聊汪");
            assert(marked(CAT.2@[0], 6, 0, 'z'));
            assert(marked(DOG.2@[0], 4, 0, '好'));
        },
        Pool::Soft => {
            reveal_strlit("差不多該收手了吧？");
            reveal_strlit("小心點囉!");
            assert(marked(CAT.3@[0], 9, 0, '差'));
            assert(marked(DOG.3@[0], 5, 0, '小'));
        },
        Pool::Urgent => {
            reveal_strlit("不妙喔。");
            reveal_strlit("糟糕!!");
            assert(marked(CAT.4@[0], 4, 0, '不'));
            assert(marked(DOG.4@[0], 4, 0, '糟'));
        },
        Pool::Rest => {
            reveal_strlit("...辛苦了。");
            reveal_strlit("今天也辛苦了!!");
            assert(marked(CAT.5@[0], 7, 0, '.'));
            assert(marked(DOG.5@[0], 8, 0, '今'));
        },
        Pool::Encourage => {
            reveal_strlit("還行啊。");
            reveal_strlit("表現很好!!");
            assert(marked(CAT.6@[0], 4, 0, '還'));
            assert(marked(DOG.6@[0], 6, 0, '表'));
        },
    }
}

pub proof fn lemma_girl_apart(pool: Pool)
    ensures
        told_apart(girl_lines(GIRL, pool)),
{
    assert(told_apart(GIRL.0@)) by {
        reveal_strlit("哈囉♪");
        assert(marked(GIRL.0@[0], 3, 0, '哈'));
        reveal_strlit("怎麼了？");
        assert(marked(GIRL.0@[1], 4, 0, '怎'));
        reveal_strlit("在看我嗎？");
        assert(marked(GIRL.0@[2], 5, 0, '在'));
    }
    assert(told_apart(GIRL.1@)) by {
        reveal_strlit("呀♪");
        assert(marked(GIRL.1@[0], 2, 0, '呀'));
        reveal_strlit("嗯？嘿嘿");
        assert(marked(GIRL.1@[1], 4, 0, '嗯'));
        reveal_strlit("幹嘛呀？");
        assert(marked(GIRL.1@[2], 4, 0, '幹'));
    }
    assert(told_apart(GIRL.2@)) by {
        reveal_strlit("哼哼♪");
        assert(marked(GIRL.2@[0], 3, 0, '哼'));
        reveal_strlit("有點無聊");
        assert(marked(GIRL.2@[1], 4, 0, '有'));
        reveal_strlit("...");
        assert(marked(GIRL.2@[2], 3, 0, '.'));
    }
    assert(told_apart(GIRL.3@)) by {
        reveal_strlit("超過八成了...");
        assert(marked(GIRL.3@[0], 8, 0, '超'));
        reveal_strlit("小心一點喔？");
        assert(marked(GIRL.3@[1], 6, 0, '小'));
        reveal_strlit("好像有點快");
        assert(marked(GIRL.3@[2], 5, 0, '好'));
    }
    assert(told_apart(GIRL.4@)) by {
        reveal_strlit("超過九成了...！");
        assert(marked(GIRL.4@[0], 9, 0, '超'));
        reveal_strlit("別、別看啦～！");
        assert(marked(GIRL.4@[1], 7, 0, '別'));
        reveal_strlit("快到極限了！");
        assert(marked(GIRL.4@[2], 6, 0, '快'));
    }
    assert(told_apart(GIRL.5@)) by {
        reveal_strlit("辛苦了♪");
        assert(marked(GIRL.5@[0], 4, 0, '辛'));
        reveal_strlit("今天表現很棒");
        assert(marked(GIRL.5@[1], 6, 0, '今'));
        reveal_strlit("休息一下？");
        assert(marked(GIRL.5@[2], 5, 0, '休'));
    }
    assert(told_apart(GIRL.6@)) by {
        reveal_strlit("狀態很好♪");
        assert(marked(GIRL.6@[0], 5, 0, '狀'));
        reveal_strlit("繼續加油！");
        assert(marked(GIRL.6@[1], 5, 0, '繼'));
        reveal_strlit("還有餘裕呢");
        assert(marked(GIRL.6@[2], 5, 0, '還'));
    }
}

} // verus!
