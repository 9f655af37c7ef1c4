//! German phrases.

use crate::phrases::pet_pool;
use crate::phrases::GirlLines;
use crate::phrases::PetLines;
use crate::phrases::Pool;
use crate::phrases::{girl_lines, marked, pet_lines, told_apart};
use vstd::prelude::*;

verus! {

pub const CAT: PetLines = (
    ["...was willst du.", "ach, du bist's.", "starrst du mich an?", "ja?", "...na gut, schau."],
    ["muss das sein.", "...pff.", "schon wieder? meinetwegen.", "stört's dich?", "na schön."],
    ["zzz...", "so langweilig.", "...", "*streck*"],
    ["mach mal langsam?", "über 80%, weißt du.", "das ist viel..."],
    ["das ist schlecht.", "fast am Limit.", "über 90%. nicht mein Problem."],
    ["...gut gemacht.", "nicht übel, schätze ich.", "ruh dich aus."],
    ["läuft doch.", "noch genug übrig.", "pff, nicht schlecht."],
);

pub const DOG: PetLines = (
    ["HI HI HI!! 🐾", "spielen?? spielen??", "schau mich an!!", "oh Mann oh Mann!", "hier rüber!!"],
    ["JAJAJA!!", "nochmal nochmal!! 🐾", "bester Tag ever!!", "streichel mich mehr!!", "juhuu!!"],
    ["so langweilig wuff", "lass uns spielen!", "*wedelt*", "Gassi??"],
    ["vorsicht jetzt!", "über 80%!", "das ist ganz schön viel!"],
    ["oh oh!!", "fast am Limit!!", "über 90%! vorsicht!!"],
    ["super gemacht heute!!", "geschafft!!", "so stolz!!"],
    ["läuft super!!", "weiter so!!", "du schaffst das!!"],
);

pub const GIRL: GirlLines = (
    ["hallöchen♪", "was ist los?", "schaust du?"],
    ["hach♪", "ja? hihi", "was denn?"],
    ["lalala♪", "etwas langweilig", "..."],
    ["über 80%...", "vorsicht, ja?", "wird etwas schnell"],
    ["über 90%...!", "n-nicht hinsehen~!", "ich bin am Limit!"],
    ["gut gemacht♪", "tolle Arbeit heute", "kleine Pause?"],
    ["läuft super♪", "weiter so!", "noch genug Luft"],
);

/// What stands before and after the time in a forecast by the cat, the dog and the girl.
pub const FORECAST: [(&'static str, &'static str); 3] = [
    ("in dem Tempo... um ", " vorbei."),
    ("oje, 100% um ", "!!"),
    ("in dem Tempo... ", " wird knapp!"),
];

/// The phrases of the cat or the dog on an occasion.
pub fn de_pool(is_cat: bool, pool: Pool) -> (r: &'static [&'static str])
    ensures
        r@ == pet_lines(if is_cat { CAT } else { DOG }, pool),
{
    if is_cat {
        pet_pool(&CAT, pool)
    } else {
        pet_pool(&DOG, pool)
    }
}

pub proof fn lemma_cat_apart(pool: Pool)
    ensures
        told_apart(pet_lines(CAT, pool)),
{
    assert(told_apart(CAT.0@)) by {
        reveal_strlit("...was willst du.");
        assert(marked(CAT.0@[0], 17, 3, 'w'));
        reveal_strlit("ach, du bist's.");
        assert(marked(CAT.0@[1], 15, 3, ','));
        reveal_strlit("starrst du mich an?");
        assert(marked(CAT.0@[2], 19, 3, 'r'));
        reveal_strlit("ja?");
        assert(marked(CAT.0@[3], 3, 3, ' '));
        reveal_strlit("...na gut, schau.");
        assert(marked(CAT.0@[4], 17, 3, 'n'));
    }
    assert(told_apart(CAT.1@)) by {
        reveal_strlit("muss das sein.");
        assert(marked(CAT.1@[0], 14, 0, 'm'));
        reveal_strlit("...pff.");
        assert(marked(CAT.1@[1], 7, 0, '.'));
        reveal_strlit("schon wieder? meinetwegen.");
        assert(marked(CAT.1@[2], 26, 0, 's'));
        reveal_strlit("stört's dich?");
        assert(marked(CAT.1@[3], 13, 0, 's'));
        reveal_strlit("na schön.");
        assert(marked(CAT.1@[4], 9, 0, 'n'));
    }
    assert(told_apart(CAT.2@)) by {
        reveal_strlit("zzz...");
        assert(marked(CAT.2@[0], 6, 0, 'z'));
        reveal_strlit("so langweilig.");
        assert(marked(CAT.2@[1], 14, 0, 's'));
        reveal_strlit("...");
        assert(marked(CAT.2@[2], 3, 0, '.'));
        reveal_strlit("*streck*");
        assert(marked(CAT.2@[3], 8, 0, '*'));
    }
    assert(told_apart(CAT.3@)) by {
        reveal_strlit("mach mal langsam?");
        assert(marked(CAT.3@[0], 17, 0, 'm'));
        reveal_strlit("über 80%, weißt du.");
        assert(marked(CAT.3@[1], 19, 0, 'ü'));
        reveal_strlit("das ist viel...");
        assert(marked(CAT.3@[2], 15, 0, 'd'));
    }
    assert(told_apart(CAT.4@)) by {
        reveal_strlit("das ist schlecht.");
        assert(marked(CAT.4@[0], 17, 0, 'd'));
        reveal_strlit("fast am Limit.");
        assert(marked(CAT.4@[1], 14, 0, 'f'));
        reveal_strlit("über 90%. nicht mein Problem.");
        assert(marked(CAT.4@[2], 29, 0, 'ü'));
    }
    assert(told_apart(CAT.5@)) by {
        reveal_strlit("...gut gemacht.");
        assert(marked(CAT.5@[0], 15, 0, '.'));
        reveal_strlit("nicht übel, schätze ich.");
        assert(marked(CAT.5@[1], 24, 0, 'n'));
        reveal_strlit("ruh dich aus.");
        assert(marked(CAT.5@[2], 13, 0, 'r'));
    }
    assert(told_apart(CAT.6@)) by {
        reveal_strlit("läuft doch.");
        assert(marked(CAT.6@[0], 11, 0, 'l'));
        reveal_strlit("noch genug übrig.");
        assert(marked(CAT.6@[1], 17, 0, 'n'));
        reveal_strlit("pff, nicht schlecht.");
        assert(marked(CAT.6@[2], 20, 0, 'p'));
    }
}

pub proof fn lemma_dog_apart(pool: Pool)
    ensures
        told_apart(pet_lines(DOG, pool)),
{
    assert(told_apart(DOG.0@)) by {
        reveal_strlit("HI HI HI!! 🐾");
        assert(marked(DOG.0@[0], 12, 0, 'H'));
        reveal_strlit("spielen?? spielen??");
        assert(marked(DOG.0@[1], 19, 0, 's'));
        reveal_strlit("schau mich an!!");
        assert(marked(DOG.0@[2], 15, 0, 's'));
        reveal_strlit("oh Mann oh Mann!");
        assert(marked(DOG.0@[3], 16, 0, 'o'));
        reveal_strlit("hier rüber!!");
        assert(marked(DOG.0@[4], 12, 0, 'h'));
    }
    assert(told_apart(DOG.1@)) by {
        reveal_strlit("JAJAJA!!");
        assert(marked(DOG.1@[0], 8, 0, 'J'));
        reveal_strlit("nochmal nochmal!! 🐾");
        assert(marked(DOG.1@[1], 19, 0, 'n'));
        reveal_strlit("bester Tag ever!!");
        assert(marked(DOG.1@[2], 17, 0, 'b'));
        reveal_strlit("streichel mich mehr!!");
        assert(marked(DOG.1@[3], 21, 0, 's'));
        reveal_strlit("juhuu!!");
        assert(marked(DOG.1@[4], 7, 0, 'j'));
    }
    assert(told_apart(DOG.2@)) by {
        reveal_strlit("so langweilig wuff");
        assert(marked(DOG.2@[0], 18, 0, 's'));
        reveal_strlit("lass uns spielen!");
        assert(marked(DOG.2@[1], 17, 0, 'l'));
        reveal_strlit("*wedelt*");
        assert(marked(DOG.2@[2], 8, 0, '*'));
        reveal_strlit("Gassi??");
        assert(marked(DOG.2@[3], 7, 0, 'G'));
    }
    assert(told_apart(DOG.3@)) by {
        reveal_strlit("vorsicht jetzt!");
        assert(marked(DOG.3@[0], 15, 0, 'v'));
        reveal_strlit("über 80%!");
        assert(marked(DOG.3@[1], 9, 0, 'ü'));
        reveal_strlit("das ist ganz schön viel!");
        assert(marked(DOG.3@[2], 24, 0, 'd'));
    }
    assert(told_apart(DOG.4@)) by {
        reveal_strlit("oh oh!!");
        assert(marked(DOG.4@[0], 7, 0, 'o'));
        reveal_strlit("fast am Limit!!");
        assert(marked(DOG.4@[1], 15, 0, 'f'));
        reveal_strlit("über 90%! vorsicht!!");
        assert(marked(DOG.4@[2], 20, 0, 'ü'));
    }
    assert(told_apart(DOG.5@)) by {
        reveal_strlit("super gemacht heute!!");
        assert(marked(DOG.5@[0], 21, 0, 's'));
        reveal_strlit("geschafft!!");
        assert(marked(DOG.5@[1], 11, 0, 'g'));
        reveal_strlit("so stolz!!");
        assert(marked(DOG.5@[2], 10, 0, 's'));
    }
    assert(told_apart(DOG.6@)) by {
        reveal_strlit("läuft super!!");
        assert(marked(DOG.6@[0], 13, 0, 'l'));
        reveal_strlit("weiter so!!");
        assert(marked(DOG.6@[1], 11, 0, 'w'));
        reveal_strlit("du schaffst das!!");
        assert(marked(DOG.6@[2], 17, 0, 'd'));
    }
}

pub proof fn lemma_voices(pool: Pool)
    ensures
        pet_lines(CAT, pool)[0]@ != pet_lines(DOG, pool)[0]@,
{
    match pool {
        Pool::Hover => {
            reveal_strlit("...was willst du.");
            reveal_strlit("HI HI HI!! 🐾");
            assert(marked(CAT.0@[0], 17, 0, '.'));
            assert(marked(DOG.0@[0], 12, 0, 'H'));
        },
        Pool::Click => {
            reveal_strlit("muss das sein.");
            reveal_strlit("JAJAJA!!");
            assert(marked(CAT.1@[0], 14, 0, 'm'));
            assert(marked(DOG.1@[0], 8, 0, 'J'));
        },
        Pool::Idle => {
            reveal_strlit("zzz...");
            reveal_strlit("so langweilig wuff");
            assert(marked(CAT.2@[0], 6, 0, 'z'));
            assert(marked(DOG.2@[0], 18, 0, 's'));
        },
        Pool::Soft => {
            reveal_strlit("mach mal langsam?");
            reveal_strlit("vorsicht jetzt!");
            assert(marked(CAT.3@[0], 17, 0, 'm'));
            assert(marked(DOG.3@[0], 15, 0, 'v'));
        },
        Pool::Urgent => {
            reveal_strlit("das ist schlecht.");
            reveal_strlit("oh oh!!");
            assert(marked(CAT.4@[0], 17, 0, 'd'));
            assert(marked(DOG.4@[0], 7, 0, 'o'));
        },
        Pool::Rest => {
            reveal_strlit("...gut gemacht.");
            reveal_strlit("super gemacht heute!!");
            assert(marked(CAT.5@[0], 15, 0, '.'));
            assert(marked(DOG.5@[0], 21, 0, 's'));
        },
        Pool::Encourage => {
            reveal_strlit("läuft doch.");
            reveal_strlit("läuft super!!");
            assert(marked(CAT.6@[0], 11, 0, 'l'));
            assert(marked(DOG.6@[0], 13, 0, 'l'));
        },
    }
}

pub proof fn lemma_girl_apart(pool: Pool)
    ensures
        told_apart(girl_lines(GIRL, pool)),
{
    assert(told_apart(GIRL.0@)) by {
        reveal_strlit("hallöchen♪");
        assert(marked(GIRL.0@[0], 10, 0, 'h'));
        reveal_strlit("was ist los?");
        assert(marked(GIRL.0@[1], 12, 0, 'w'));
        reveal_strlit("schaust du?");
        assert(marked(GIRL.0@[2], 11, 0, 's'));
    }
    assert(told_apart(GIRL.1@)) by {
        reveal_strlit("hach♪");
        assert(marked(GIRL.1@[0], 5, 0, 'h'));
        reveal_strlit("ja? hihi");
        assert(marked(GIRL.1@[1], 8, 0, 'j'));
        reveal_strlit("was denn?");
        assert(marked(GIRL.1@[2], 9, 0, 'w'));
    }
    assert(told_apart(GIRL.2@)) by {
        reveal_strlit("lalala♪");
        assert(marked(GIRL.2@[0], 7, 0, 'l'));
        reveal_strlit("etwas langweilig");
        assert(marked(GIRL.2@[1], 16, 0, 'e'));
        reveal_strlit("...");
        assert(marked(GIRL.2@[2], 3, 0, '.'));
    }
    assert(told_apart(GIRL.3@)) by {
        reveal_strlit("über 80%...");
        assert(marked(GIRL.3@[0], 11, 0, 'ü'));
        reveal_strlit("vorsicht, ja?");
        assert(marked(GIRL.3@[1], 13, 0, 'v'));
        reveal_strlit("wird etwas schnell");
        assert(marked(GIRL.3@[2], 18, 0, 'w'));
    }
    assert(told_apart(GIRL.4@)) by {
        reveal_strlit("über 90%...!");
        assert(marked(GIRL.4@[0], 12, 0, 'ü'));
        reveal_strlit("n-nicht hinsehen~!");
        assert(marked(GIRL.4@[1], 18, 0, 'n'));
        reveal_strlit("ich bin am Limit!");
        assert(marked(GIRL.4@[2], 17, 0, 'i'));
    }
    assert(told_apart(GIRL.5@)) by {
        reveal_strlit("gut gemacht♪");
        assert(marked(GIRL.5@[0], 12, 0, 'g'));
        reveal_strlit("tolle Arbeit heute");
        assert(marked(GIRL.5@[1], 18, 0, 't'));
        reveal_strlit("kleine Pause?");
        assert(marked(GIRL.5@[2], 13, 0, 'k'));
    }
    assert(told_apart(GIRL.6@)) by {
        reveal_strlit("läuft super♪");
        assert(marked(GIRL.6@[0], 12, 0, 'l'));
        reveal_strlit("weiter so!");
        assert(marked(GIRL.6@[1], 10, 0, 'w'));
        reveal_strlit("noch genug Luft");
        assert(marked(GIRL.6@[2], 15, 0, 'n'));
    }
}

} // verus!
