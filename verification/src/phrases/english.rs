//! English phrases.

use crate::phrases::pet_pool;
use crate::phrases::GirlLines;
use crate::phrases::PetLines;
use crate::phrases::Pool;
use crate::phrases::{girl_lines, marked, pet_lines, told_apart};
use vstd::prelude::*;

verus! {

pub const CAT: PetLines = (
    ["...what do you want.", "oh, it's you.", "are you staring?", "yeah?", "...fine, look."],
    ["must you.", "...hmph.", "again? whatever.", "do you mind?", "fine, I guess."],
    ["zzz...", "so bored.", "...", "*stretch*"],
    ["maybe ease up?", "past 80%, you know.", "that's a lot..."],
    ["this is bad.", "you're nearly maxed.", "over 90%. not my problem."],
    ["...good job.", "not bad, I suppose.", "go rest already."],
    ["doing fine.", "plenty left.", "hmph, not bad."],
);

pub const DOG: PetLines = (
    ["HI HI HI!! 🐾", "play?? play??", "look at me!!", "oh boy oh boy!", "over here!!"],
    ["YESYESYES!!", "again again!! 🐾", "best day ever!!", "pet me more!!", "wheee!!"],
    ["so bored woof", "let's play!", "*wags tail*", "walkies??"],
    ["careful now!", "past 80%!", "that's kinda lots!"],
    ["uh oh!!", "almost maxed!!", "over 90%! careful!!"],
    ["great job today!!", "you did it!!", "so proud!!"],
    ["doing great!!", "keep going!!", "you got this!!"],
);

pub const GIRL: GirlLines = (
    ["hi there♪", "what's up?", "you're looking?"],
    ["eek♪", "yes? hehe", "what is it?"],
    ["la la la♪", "kinda bored", "..."],
    ["past 80%...", "careful, okay?", "slowing down maybe?"],
    ["over 90%...!", "d-don't look~!", "I'm at my limit!"],
    ["nice work♪", "you did great today", "let's take a break?"],
    ["doing great♪", "keep it up!", "still room to go"],
);

/// What stands before and after the time in a forecast by the cat, the dog and the girl.
pub const FORECAST: [(&'static str, &'static str); 3] = [
    ("at this pace... done by ", "."),
    ("uh oh, 100% by ", "!!"),
    ("at this pace... ", " looks risky!"),
];

/// The phrases of the cat or the dog on an occasion.
pub fn en_pool(is_cat: bool, pool: Pool) -> (r: &'static [&'static str])
    ensures
        r@ == pet_lines(if is_cat { CAT } else { DOG }, pool),
{
    if is_cat {
        pet_pool(&CAT, pool)
    } else {
        pet_pool(&DOG, pool)
    }
}

pub proof fn lemma_cat_apart(pool: Pool)
    ensures
        told_apart(pet_lines(CAT, pool)),
{
    assert(told_apart(CAT.0@)) by {
        reveal_strlit("...what do you want.");
        assert(marked(CAT.0@[0], 20, 0, '.'));
        reveal_strlit("oh, it's you.");
        assert(marked(CAT.0@[1], 13, 0, 'o'));
        reveal_strlit("are you staring?");
        assert(marked(CAT.0@[2], 16, 0, 'a'));
        reveal_strlit("yeah?");
        assert(marked(CAT.0@[3], 5, 0, 'y'));
        reveal_strlit("...fine, look.");
        assert(marked(CAT.0@[4], 14, 0, '.'));
    }
    assert(told_apart(CAT.1@)) by {
        reveal_strlit("must you.");
        assert(marked(CAT.1@[0], 9, 0, 'm'));
        reveal_strlit("...hmph.");
        assert(marked(CAT.1@[1], 8, 0, '.'));
        reveal_strlit("again? whatever.");
        assert(marked(CAT.1@[2], 16, 0, 'a'));
        reveal_strlit("do you mind?");
        assert(marked(CAT.1@[3], 12, 0, 'd'));
        reveal_strlit("fine, I guess.");
        assert(marked(CAT.1@[4], 14, 0, 'f'));
    }
    assert(told_apart(CAT.2@)) by {
        reveal_strlit("zzz...");
        assert(marked(CAT.2@[0], 6, 0, 'z'));
        reveal_strlit("so bored.");
        assert(marked(CAT.2@[1], 9, 0, 's'));
        reveal_strlit("...");
        assert(marked(CAT.2@[2], 3, 0, '.'));
        reveal_strlit("*stretch*");
        assert(marked(CAT.2@[3], 9, 0, '*'));
    }
    assert(told_apart(CAT.3@)) by {
        reveal_strlit("maybe ease up?");
        assert(marked(CAT.3@[0], 14, 0, 'm'));
        reveal_strlit("past 80%, you know.");
        assert(marked(CAT.3@[1], 19, 0, 'p'));
        reveal_strlit("that's a lot...");
        assert(marked(CAT.3@[2], 15, 0, 't'));
    }
    assert(told_apart(CAT.4@)) by {
        reveal_strlit("this is bad.");
        assert(marked(CAT.4@[0], 12, 0, 't'));
        reveal_strlit("you're nearly maxed.");
        assert(marked(CAT.4@[1], 20, 0, 'y'));
        reveal_strlit("over 90%. not my problem.");
        assert(marked(CAT.4@[2], 25, 0, 'o'));
    }
    assert(told_apart(CAT.5@)) by {
        reveal_strlit("...good job.");
        assert(marked(CAT.5@[0], 12, 0, '.'));
        reveal_strlit("not bad, I suppose.");
        assert(marked(CAT.5@[1], 19, 0, 'n'));
        reveal_strlit("go rest already.");
        assert(marked(CAT.5@[2], 16, 0, 'g'));
    }
    assert(told_apart(CAT.6@)) by {
        reveal_strlit("doing fine.");
        assert(marked(CAT.6@[0], 11, 0, 'd'));
        reveal_strlit("plenty left.");
        assert(marked(CAT.6@[1], 12, 0, 'p'));
        reveal_strlit("hmph, not bad.");
        assert(marked(CAT.6@[2], 14, 0, 'h'));
    }
}

pub proof fn lemma_dog_apart(pool: Pool)
    ensures
        told_apart(pet_lines(DOG, pool)),
{
    assert(told_apart(DOG.0@)) by {
        reveal_strlit("HI HI HI!! 🐾");
        assert(marked(DOG.0@[0], 12, 0, 'H'));
        reveal_strlit("play?? play??");
        assert(marked(DOG.0@[1], 13, 0, 'p'));
        reveal_strlit("look at me!!");
        assert(marked(DOG.0@[2], 12, 0, 'l'));
        reveal_strlit("oh boy oh boy!");
        assert(marked(DOG.0@[3], 14, 0, 'o'));
        reveal_strlit("over here!!");
        assert(marked(DOG.0@[4], 11, 0, 'o'));
    }
    assert(told_apart(DOG.1@)) by {
        reveal_strlit("YESYESYES!!");
        assert(marked(DOG.1@[0], 11, 0, 'Y'));
        reveal_strlit("again again!! 🐾");
        assert(marked(DOG.1@[1], 15, 0, 'a'));
        reveal_strlit("best day ever!!");
        assert(marked(DOG.1@[2], 15, 0, 'b'));
        reveal_strlit("pet me more!!");
        assert(marked(DOG.1@[3], 13, 0, 'p'));
        reveal_strlit("wheee!!");
        assert(marked(DOG.1@[4], 7, 0, 'w'));
    }
    assert(told_apart(DOG.2@)) by {
        reveal_strlit("so bored woof");
        assert(marked(DOG.2@[0], 13, 0, 's'));
        reveal_strlit("let's play!");
        assert(marked(DOG.2@[1], 11, 0, 'l'));
        reveal_strlit("*wags tail*");
        assert(marked(DOG.2@[2], 11, 0, '*'));
        reveal_strlit("walkies??");
        assert(marked(DOG.2@[3], 9, 0, 'w'));
    }
    assert(told_apart(DOG.3@)) by {
        reveal_strlit("careful now!");
        assert(marked(DOG.3@[0], 12, 0, 'c'));
        reveal_strlit("past 80%!");
        assert(marked(DOG.3@[1], 9, 0, 'p'));
        reveal_strlit("that's kinda lots!");
        assert(marked(DOG.3@[2], 18, 0, 't'));
    }
    assert(told_apart(DOG.4@)) by {
        reveal_strlit("uh oh!!");
        assert(marked(DOG.4@[0], 7, 0, 'u'));
        reveal_strlit("almost maxed!!");
        assert(marked(DOG.4@[1], 14, 0, 'a'));
        reveal_strlit("over 90%! careful!!");
        assert(marked(DOG.4@[2], 19, 0, 'o'));
    }
    assert(told_apart(DOG.5@)) by {
        reveal_strlit("great job today!!");
        assert(marked(DOG.5@[0], 17, 0, 'g'));
        reveal_strlit("you did it!!");
        assert(marked(DOG.5@[1], 12, 0, 'y'));
        reveal_strlit("so proud!!");
        assert(marked(DOG.5@[2], 10, 0, 's'));
    }
    assert(told_apart(DOG.6@)) by {
        reveal_strlit("doing great!!");
        assert(marked(DOG.6@[0], 13, 0, 'd'));
        reveal_strlit("keep going!!");
        assert(marked(DOG.6@[1], 12, 0, 'k'));
        reveal_strlit("you got this!!");
        assert(marked(DOG.6@[2], 14, 0, 'y'));
    }
}

pub proof fn lemma_voices(pool: Pool)
    ensures
        pet_lines(CAT, pool)[0]@ != pet_lines(DOG, pool)[0]@,
{
    match pool {
        Pool::Hover => {
            reveal_strlit("...what do you want.");
            reveal_strlit("HI HI HI!! 🐾");
            assert(marked(CAT.0@[0], 20, 0, '.'));
            assert(marked(DOG.0@[0], 12, 0, 'H'));
        },
        Pool::Click => {
            reveal_strlit("must you.");
            reveal_strlit("YESYESYES!!");
            assert(marked(CAT.1@[0], 9, 0, 'm'));
            assert(marked(DOG.1@[0], 11, 0, 'Y'));
        },
        Pool::Idle => {
            reveal_strlit("zzz...");
            reveal_strlit("so bored woof");
            assert(marked(CAT.2@[0], 6, 0, 'z'));
            assert(marked(DOG.2@[0], 13, 0, 's'));
        },
        Pool::Soft => {
            reveal_strlit("maybe ease up?");
            reveal_strlit("careful now!");
            assert(marked(CAT.3@[0], 14, 0, 'm'));
            assert(marked(DOG.3@[0], 12, 0, 'c'));
        },
        Pool::Urgent => {
            reveal_strlit("this is bad.");
            reveal_strlit("uh oh!!");
            assert(marked(CAT.4@[0], 12, 0, 't'));
            assert(marked(DOG.4@[0], 7, 0, 'u'));
        },
        Pool::Rest => {
            reveal_strlit("...good job.");
            reveal_strlit("great job today!!");
            assert(marked(CAT.5@[0], 12, 0, '.'));
            assert(marked(DOG.5@[0], 17, 0, 'g'));
        },
        Pool::Encourage => {
            reveal_strlit("doing fine.");
            reveal_strlit("doing great!!");
            assert(marked(CAT.6@[0], 11, 0, 'd'));
            assert(marked(DOG.6@[0], 13, 0, 'd'));
        },
    }
}

pub proof fn lemma_girl_apart(pool: Pool)
    ensures
        told_apart(girl_lines(GIRL, pool)),
{
    assert(told_apart(GIRL.0@)) by {
        reveal_strlit("hi there♪");
        assert(marked(GIRL.0@[0], 9, 0, 'h'));
        reveal_strlit("what's up?");
        assert(marked(GIRL.0@[1], 10, 0, 'w'));
        reveal_strlit("you're looking?");
        assert(marked(GIRL.0@[2], 15, 0, 'y'));
    }
    assert(told_apart(GIRL.1@)) by {
        reveal_strlit("eek♪");
        assert(marked(GIRL.1@[0], 4, 0, 'e'));
        reveal_strlit("yes? hehe");
        assert(marked(GIRL.1@[1], 9, 0, 'y'));
        reveal_strlit("what is it?");
        assert(marked(GIRL.1@[2], 11, 0, 'w'));
    }
    assert(told_apart(GIRL.2@)) by {
        reveal_strlit("la la la♪");
        assert(marked(GIRL.2@[0], 9, 0, 'l'));
        reveal_strlit("kinda bored");
        assert(marked(GIRL.2@[1], 11, 0, 'k'));
        reveal_strlit("...");
        assert(marked(GIRL.2@[2], 3, 0, '.'));
    }
    assert(told_apart(GIRL.3@)) by {
        reveal_strlit("past 80%...");
        assert(marked(GIRL.3@[0], 11, 0, 'p'));
        reveal_strlit("careful, okay?");
        assert(marked(GIRL.3@[1], 14, 0, 'c'));
        reveal_strlit("slowing down maybe?");
        assert(marked(GIRL.3@[2], 19, 0, 's'));
    }
    assert(told_apart(GIRL.4@)) by {
        reveal_strlit("over 90%...!");
        assert(marked(GIRL.4@[0], 12, 0, 'o'));
        reveal_strlit("d-don't look~!");
        assert(marked(GIRL.4@[1], 14, 0, 'd'));
        reveal_strlit("I'm at my limit!");
        assert(marked(GIRL.4@[2], 16, 0, 'I'));
    }
    assert(told_apart(GIRL.5@)) by {
        reveal_strlit("nice work♪");
        assert(marked(GIRL.5@[0], 10, 0, 'n'));
        reveal_strlit("you did great today");
        assert(marked(GIRL.5@[1], 19, 0, 'y'));
        reveal_strlit("let's take a break?");
        assert(marked(GIRL.5@[2], 19, 0, 'l'));
    }
    assert(told_apart(GIRL.6@)) by {
        reveal_strlit("doing great♪");
        assert(marked(GIRL.6@[0], 12, 0, 'd'));
        reveal_strlit("keep it up!");
        assert(marked(GIRL.6@[1], 11, 0, 'k'));
        reveal_strlit("still room to go");
        assert(marked(GIRL.6@[2], 16, 0, 's'));
    }
}

} // verus!
