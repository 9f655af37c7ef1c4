//! Korean phrases.

use crate::phrases::pet_pool;
use crate::phrases::GirlLines;
use crate::phrases::PetLines;
use crate::phrases::Pool;
use crate::phrases::{girl_lines, marked, pet_lines, told_apart};
use vstd::prelude::*;

verus! {

pub const CAT: PetLines = (
    ["...뭐야.", "아, 너구나.", "쳐다보는 거야?", "응?", "...그래, 봐."],
    ["꼭 그래야겠어?", "...흥.", "또? 마음대로 해.", "방해되는데.", "뭐, 좋아."],
    ["zzz...", "심심하다냥.", "...", "*기지개*"],
    ["슬슬 줄이지?", "80% 넘었어.", "좀 많은데..."],
    ["위험하다냥!", "거의 한계야.", "90% 넘음. 난 몰라."],
    ["...수고했어.", "뭐, 나쁘진 않네.", "이제 좀 쉬어."],
    ["좋은데.", "아직 여유 있잖아.", "흥, 나쁘지 않네."],
);

pub const DOG: PetLines = (
    ["안녕안녕!! 🐾", "놀자?? 놀자??", "나 좀 봐봐!!", "우와 우와!", "여기야 여기!!"],
    ["좋아좋아!!", "한 번 더!! 🐾", "최고의 날!!", "더 쓰다듬어줘!!", "야호!!"],
    ["심심해 멍", "놀자!", "*꼬리 흔들흔들*", "산책 갈까??"],
    ["이제 조심해!", "80% 넘었어!", "좀 많은 것 같아!"],
    ["큰일이야 멍!", "거의 한계야!", "90%! 조심해!!"],
    ["오늘도 잘했어!!", "해냈어!!", "정말 대단해!!"],
    ["잘하고 있어!!", "그 기세야!!", "넌 할 수 있어!!"],
);

pub const GIRL: GirlLines = (
    ["야호♪", "무슨 일이야?", "보고 있어?"],
    ["꺄♪", "응? 헤헤", "왜왜?"],
    ["흥얼흥얼♪", "좀 심심해", "..."],
    ["80% 넘었어...", "조심하자, 응?", "조금 빠른 듯"],
    ["90% 넘었어...!", "보, 보지 마~!", "한계야!"],
    ["수고했어♪", "오늘 정말 잘했어", "좀 쉬자?"],
    ["잘하고 있어♪", "그 기세야!", "아직 여유 있어"],
);

/// What stands before and after the time in a forecast by the cat, the dog and the girl.
pub const FORECAST: [(&'static str, &'static str); 3] = [
    ("이 속도면... ", "에 끝."),
    ("이런, ", "에 100%!!"),
    ("이 속도면... ", "쯤 위험해!"),
];

/// The phrases of the cat or the dog on an occasion.
pub fn ko_pool(is_cat: bool, pool: Pool) -> (r: &'static [&'static str])
    ensures
        r@ == pet_lines(if is_cat { CAT } else { DOG }, pool),
{
    if is_cat {
        pet_pool(&CAT, pool)
    } else {
        pet_pool(&DOG, pool)
    }
}

pub proof fn lemma_cat_apart(pool: Pool)
    ensures
        told_apart(pet_lines(CAT, pool)),
{
    assert(told_apart(CAT.0@)) by {
        reveal_strlit("...뭐야.");
        assert(marked(CAT.0@[0], 6, 0, '.'));
        reveal_strlit("아, 너구나.");
        assert(marked(CAT.0@[1], 7, 0, '아'));
        reveal_strlit("쳐다보는 거야?");
        assert(marked(CAT.0@[2], 8, 0, '쳐'));
        reveal_strlit("응?");
        assert(marked(CAT.0@[3], 2, 0, '응'));
        reveal_strlit("...그래, 봐.");
        assert(marked(CAT.0@[4], 9, 0, '.'));
    }
    assert(told_apart(CAT.1@)) by {
        reveal_strlit("꼭 그래야겠어?");
        assert(marked(CAT.1@[0], 8, 0, '꼭'));
        reveal_strlit("...흥.");
        assert(marked(CAT.1@[1], 5, 0, '.'));
        reveal_strlit("또? 마음대로 해.");
        assert(marked(CAT.1@[2], 10, 0, '또'));
        reveal_strlit("방해되는데.");
        assert(marked(CAT.1@[3], 6, 0, '방'));
        reveal_strlit("뭐, 좋아.");
        assert(marked(CAT.1@[4], 6, 0, '뭐'));
    }
    assert(told_apart(CAT.2@)) by {
        reveal_strlit("zzz...");
        assert(marked(CAT.2@[0], 6, 0, 'z'));
        reveal_strlit("심심하다냥.");
        assert(marked(CAT.2@[1], 6, 0, '심'));
        reveal_strlit("...");
        assert(marked(CAT.2@[2], 3, 0, '.'));
        reveal_strlit("*기지개*");
        assert(marked(CAT.2@[3], 5, 0, '*'));
    }
    assert(told_apart(CAT.3@)) by {
        reveal_strlit("슬슬 줄이지?");
        assert(marked(CAT.3@[0], 7, 0, '슬'));
        reveal_strlit("80% 넘었어.");
        assert(marked(CAT.3@[1], 8, 0, '8'));
        reveal_strlit("좀 많은데...");
        assert(marked(CAT.3@[2], 8, 0, '좀'));
    }
    assert(told_apart(CAT.4@)) by {
        reveal_strlit("위험하다냥!");
        assert(marked(CAT.4@[0], 6, 0, '위'));
        reveal_strlit("거의 한계야.");
        assert(marked(CAT.4@[1], 7, 0, '거'));
        reveal_strlit("90% 넘음. 난 몰라.");
        assert(marked(CAT.4@[2], 13, 0, '9'));
    }
    assert(told_apart(CAT.5@)) by {
        reveal_strlit("...수고했어.");
        assert(marked(CAT.5@[0], 8, 0, '.'));
        reveal_strlit("뭐, 나쁘진 않네.");
        assert(marked(CAT.5@[1], 10, 0, '뭐'));
        reveal_strlit("이제 좀 쉬어.");
        assert(marked(CAT.5@[2], 8, 0, '이'));
    }
    assert(told_apart(CAT.6@)) by {
        reveal_strlit("좋은데.");
        assert(marked(CAT.6@[0], 4, 0, '좋'));
        reveal_strlit("아직 여유 있잖아.");
        assert(marked(CAT.6@[1], 10, 0, '아'));
        reveal_strlit("흥, 나쁘지 않네.");
        assert(marked(CAT.6@[2], 10, 0, '흥'));
    }
}

pub proof fn lemma_dog_apart(pool: Pool)
    ensures
        told_apart(pet_lines(DOG, pool)),
{
    assert(told_apart(DOG.0@)) by {
        reveal_strlit("안녕안녕!! 🐾");
        assert(marked(DOG.0@[0], 8, 0, '안'));
        reveal_strlit("놀자?? 놀자??");
        assert(marked(DOG.0@[1], 9, 0, '놀'));
        reveal_strlit("나 좀 봐봐!!");
        assert(marked(DOG.0@[2], 8, 0, '나'));
        reveal_strlit("우와 우와!");
        assert(marked(DOG.0@[3], 6, 0, '우'));
        reveal_strlit("여기야 여기!!");
        assert(marked(DOG.0@[4], 8, 0, '여'));
    }
    assert(told_apart(DOG.1@)) by {
        reveal_strlit("좋아좋아!!");
        assert(marked(DOG.1@[0], 6, 0, '좋'));
        reveal_strlit("한 번 더!! 🐾");
        assert(marked(DOG.1@[1], 9, 0, '한'));
        reveal_strlit("최고의 날!!");
        assert(marked(DOG.1@[2], 7, 0, '최'));
        reveal_strlit("더 쓰다듬어줘!!");
        assert(marked(DOG.1@[3], 9, 0, '더'));
        reveal_strlit("야호!!");
        assert(marked(DOG.1@[4], 4, 0, '야'));
    }
    assert(told_apart(DOG.2@)) by {
        reveal_strlit("심심해 멍");
        assert(marked(DOG.2@[0], 5, 0, '심'));
        reveal_strlit("놀자!");
        assert(marked(DOG.2@[1], 3, 0, '놀'));
        reveal_strlit("*꼬리 흔들흔들*");
        assert(marked(DOG.2@[2], 9, 0, '*'));
        reveal_strlit("산책 갈까??");
        assert(marked(DOG.2@[3], 7, 0, '산'));
    }
    assert(told_apart(DOG.3@)) by {
        reveal_strlit("이제 조심해!");
        assert(marked(DOG.3@[0], 7, 0, '이'));
        reveal_strlit("80% 넘었어!");
        assert(marked(DOG.3@[1], 8, 0, '8'));
        reveal_strlit("좀 많은 것 같아!");
        assert(marked(DOG.3@[2], 10, 0, '좀'));
    }
    assert(told_apart(DOG.4@)) by {
        reveal_strlit("큰일이야 멍!");
        assert(marked(DOG.4@[0], 7, 0, '큰'));
        reveal_strlit("거의 한계야!");
        assert(marked(DOG.4@[1], 7, 0, '거'));
        reveal_strlit("90%! 조심해!!");
        assert(marked(DOG.4@[2], 10, 0, '9'));
    }
    assert(told_apart(DOG.5@)) by {
        reveal_strlit("오늘도 잘했어!!");
        assert(marked(DOG.5@[0], 9, 0, '오'));
        reveal_strlit("해냈어!!");
        assert(marked(DOG.5@[1], 5, 0, '해'));
        reveal_strlit("정말 대단해!!");
        assert(marked(DOG.5@[2], 8, 0, '정'));
    }
    assert(told_apart(DOG.6@)) by {
        reveal_strlit("잘하고 있어!!");
        assert(marked(DOG.6@[0], 8, 0, '잘'));
        reveal_strlit("그 기세야!!");
        assert(marked(DOG.6@[1], 7, 0, '그'));
        reveal_strlit("넌 할 수 있어!!");
        assert(marked(DOG.6@[2], 10, 0, '넌'));
    }
}

pub proof fn lemma_voices(pool: Pool)
    ensures
        pet_lines(CAT, pool)[0]@ != pet_lines(DOG, pool)[0]@,
{
    match pool {
        Pool::Hover => {
            reveal_strlit("...뭐야.");
            reveal_strlit("안녕안녕!! 🐾");
            assert(marked(CAT.0@[0], 6, 0, '.'));
            assert(marked(DOG.0@[0], 8, 0, '안'));
        },
        Pool::Click => {
            reveal_strlit("꼭 그래야겠어?");
            reveal_strlit("좋아좋아!!");
            assert(marked(CAT.1@[0], 8, 0, '꼭'));
            assert(marked(DOG.1@[0], 6, 0, '좋'));
        },
        Pool::Idle => {
            reveal_strlit("zzz...");
            reveal_strlit("심심해 멍");
            assert(marked(CAT.2@[0], 6, 0, 'z'));
            assert(marked(DOG.2@[0], 5, 0, '심'));
        },
        Pool::Soft => {
            reveal_strlit("슬슬 줄이지?");
            reveal_strlit("이제 조심해!");
            assert(marked(CAT.3@[0], 7, 0, '슬'));
            assert(marked(DOG.3@[0], 7, 0, '이'));
        },
        Pool::Urgent => {
            reveal_strlit("위험하다냥!");
            reveal_strlit("큰일이야 멍!");
            assert(marked(CAT.4@[0], 6, 0, '위'));
            assert(marked(DOG.4@[0], 7, 0, '큰'));
        },
        Pool::Rest => {
            reveal_strlit("...수고했어.");
            reveal_strlit("오늘도 잘했어!!");
            assert(marked(CAT.5@[0], 8, 0, '.'));
            assert(marked(DOG.5@[0], 9, 0, '오'));
        },
        Pool::Encourage => {
            reveal_strlit("좋은데.");
            reveal_strlit("잘하고 있어!!");
            assert(marked(CAT.6@[0], 4, 0, '좋'));
            assert(marked(DOG.6@[0], 8, 0, '잘'));
        },
    }
}

pub proof fn lemma_girl_apart(pool: Pool)
    ensures
        told_apart(girl_lines(GIRL, pool)),
{
    assert(told_apart(GIRL.0@)) by {
        reveal_strlit("야호♪");
        assert(marked(GIRL.0@[0], 3, 0, '야'));
        reveal_strlit("무슨 일이야?");
        assert(marked(GIRL.0@[1], 7, 0, '무'));
        reveal_strlit("보고 있어?");
        assert(marked(GIRL.0@[2], 6, 0, '보'));
    }
    assert(told_apart(GIRL.1@)) by {
        reveal_strlit("꺄♪");
        assert(marked(GIRL.1@[0], 2, 0, '꺄'));
        reveal_strlit("응? 헤헤");
        assert(marked(GIRL.1@[1], 5, 0, '응'));
        reveal_strlit("왜왜?");
        assert(marked(GIRL.1@[2], 3, 0, '왜'));
    }
    assert(told_apart(GIRL.2@)) by {
        reveal_strlit("흥얼흥얼♪");
        assert(marked(GIRL.2@[0], 5, 0, '흥'));
        reveal_strlit("좀 심심해");
        assert(marked(GIRL.2@[1], 5, 0, '좀'));
        reveal_strlit("...");
        assert(marked(GIRL.2@[2], 3, 0, '.'));
    }
    assert(told_apart(GIRL.3@)) by {
        reveal_strlit("80% 넘었어...");
        assert(marked(GIRL.3@[0], 10, 0, '8'));
        reveal_strlit("조심하자, 응?");
        assert(marked(GIRL.3@[1], 8, 0, '조'));
        reveal_strlit("조금 빠른 듯");
        assert(marked(GIRL.3@[2], 7, 0, '조'));
    }
    assert(told_apart(GIRL.4@)) by {
        reveal_strlit("90% 넘었어...!");
        assert(marked(GIRL.4@[0], 11, 0, '9'));
        reveal_strlit("보, 보지 마~!");
        assert(marked(GIRL.4@[1], 9, 0, '보'));
        reveal_strlit("한계야!");
        assert(marked(GIRL.4@[2], 4, 0, '한'));
    }
    assert(told_apart(GIRL.5@)) by {
        reveal_strlit("수고했어♪");
        assert(marked(GIRL.5@[0], 5, 0, '수'));
        reveal_strlit("오늘 정말 잘했어");
        assert(marked(GIRL.5@[1], 9, 0, '오'));
        reveal_strlit("좀 쉬자?");
        assert(marked(GIRL.5@[2], 5, 0, '좀'));
    }
    assert(told_apart(GIRL.6@)) by {
        reveal_strlit("잘하고 있어♪");
        assert(marked(GIRL.6@[0], 7, 0, '잘'));
        reveal_strlit("그 기세야!");
        assert(marked(GIRL.6@[1], 6, 0, '그'));
        reveal_strlit("아직 여유 있어");
        assert(marked(GIRL.6@[2], 8, 0, '아'));
    }
}

} // verus!
