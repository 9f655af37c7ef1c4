//! Dutch phrases.

use crate::phrases::pet_pool;
use crate::phrases::GirlLines;
use crate::phrases::PetLines;
use crate::phrases::Pool;
use crate::phrases::{girl_lines, marked, pet_lines, told_apart};
use vstd::prelude::*;

verus! {

pub const CAT: PetLines = (
    ["...wat wil je.", "oh, jij bent het.", "zit je te staren?", "ja?", "...goed, kijk dan."],
    ["moet dat nou.", "...pff.", "alweer? mij best.", "stoor ik?", "vooruit dan maar."],
    ["zzz...", "zo saai.", "...", "*rek uit*"],
    ["rustig aan?", "boven de 80%, hoor.", "dat is veel..."],
    ["dit is slecht.", "bijna op.", "boven 90%. niet mijn probleem."],
    ["...goed gedaan.", "niet slecht, denk ik.", "ga maar rusten."],
    ["gaat prima.", "nog genoeg over.", "pff, niet slecht."],
);

pub const DOG: PetLines = (
    ["HOI HOI HOI!! 🐾", "spelen?? spelen??", "kijk naar mij!!", "oh jee oh jee!", "hierheen!!"],
    ["JAJAJA!!", "nog een keer!! 🐾", "beste dag ooit!!", "aai me meer!!", "joepie!!"],
    ["zo saai woef", "laten we spelen!", "*kwispel*", "wandelen??"],
    ["voorzichtig nu!", "boven de 80%!", "dat is best veel!"],
    ["oei oei!!", "bijna op!!", "boven 90%! pas op!!"],
    ["goed gedaan vandaag!!", "het is gelukt!!", "zo trots!!"],
    ["gaat goed!!", "ga zo door!!", "jij kan dit!!"],
);

pub const GIRL: GirlLines = (
    ["hoi♪", "wat is er?", "kijk je?"],
    ["hihi♪", "ja? hihi", "wat dan?"],
    ["lalala♪", "beetje saai", "..."],
    ["boven 80%...", "voorzichtig, hè?", "gaat wat snel"],
    ["boven 90%...!", "n-niet kijken~!", "ik zit aan m'n grens!"],
    ["goed gedaan♪", "top vandaag", "even pauze?"],
    ["gaat goed♪", "ga zo door!", "nog ruimte zat"],
);

/// What stands before and after the time in a forecast by the cat, the dog and the girl.
pub const FORECAST: [(&'static str, &'static str); 3] = [
    ("in dit tempo... om ", " op."),
    ("oei, 100% om ", "!!"),
    ("in dit tempo... ", " wordt spannend!"),
];

/// The phrases of the cat or the dog on an occasion.
pub fn nl_pool(is_cat: bool, pool: Pool) -> (r: &'static [&'static str])
    ensures
        r@ == pet_lines(if is_cat { CAT } else { DOG }, pool),
{
    if is_cat {
        pet_pool(&CAT, pool)
    } else {
        pet_pool(&DOG, pool)
    }
}

pub proof fn lemma_cat_apart(pool: Pool)
    ensures
        told_apart(pet_lines(CAT, pool)),
{
    assert(told_apart(CAT.0@)) by {
        reveal_strlit("...wat wil je.");
        assert(marked(CAT.0@[0], 14, 0, '.'));
        reveal_strlit("oh, jij bent het.");
        assert(marked(CAT.0@[1], 17, 0, 'o'));
        reveal_strlit("zit je te staren?");
        assert(marked(CAT.0@[2], 17, 0, 'z'));
        reveal_strlit("ja?");
        assert(marked(CAT.0@[3], 3, 0, 'j'));
        reveal_strlit("...goed, kijk dan.");
        assert(marked(CAT.0@[4], 18, 0, '.'));
    }
    assert(told_apart(CAT.1@)) by {
        reveal_strlit("moet dat nou.");
        assert(marked(CAT.1@[0], 13, 0, 'm'));
        reveal_strlit("...pff.");
        assert(marked(CAT.1@[1], 7, 0, '.'));
        reveal_strlit("alweer? mij best.");
        assert(marked(CAT.1@[2], 17, 0, 'a'));
        reveal_strlit("stoor ik?");
        assert(marked(CAT.1@[3], 9, 0, 's'));
        reveal_strlit("vooruit dan maar.");
        assert(marked(CAT.1@[4], 17, 0, 'v'));
    }
    assert(told_apart(CAT.2@)) by {
        reveal_strlit("zzz...");
        assert(marked(CAT.2@[0], 6, 0, 'z'));
        reveal_strlit("zo saai.");
        assert(marked(CAT.2@[1], 8, 0, 'z'));
        reveal_strlit("...");
        assert(marked(CAT.2@[2], 3, 0, '.'));
        reveal_strlit("*rek uit*");
        assert(marked(CAT.2@[3], 9, 0, '*'));
    }
    assert(told_apart(CAT.3@)) by {
        reveal_strlit("rustig aan?");
        assert(marked(CAT.3@[0], 11, 0, 'r'));
        reveal_strlit("boven de 80%, hoor.");
        assert(marked(CAT.3@[1], 19, 0, 'b'));
        reveal_strlit("dat is veel...");
        assert(marked(CAT.3@[2], 14, 0, 'd'));
    }
    assert(told_apart(CAT.4@)) by {
        reveal_strlit("dit is slecht.");
        assert(marked(CAT.4@[0], 14, 0, 'd'));
        reveal_strlit("bijna op.");
        assert(marked(CAT.4@[1], 9, 0, 'b'));
        reveal_strlit("boven 90%. niet mijn probleem.");
        assert(marked(CAT.4@[2], 30, 0, 'b'));
    }
    assert(told_apart(CAT.5@)) by {
        reveal_strlit("...goed gedaan.");
        assert(marked(CAT.5@[0], 15, 0, '.'));
        reveal_strlit("niet slecht, denk ik.");
        assert(marked(CAT.5@[1], 21, 0, 'n'));
        reveal_strlit("ga maar rusten.");
        assert(marked(CAT.5@[2], 15, 0, 'g'));
    }
    assert(told_apart(CAT.6@)) by {
        reveal_strlit("gaat prima.");
        assert(marked(CAT.6@[0], 11, 0, 'g'));
        reveal_strlit("nog genoeg over.");
        assert(marked(CAT.6@[1], 16, 0, 'n'));
        reveal_strlit("pff, niet slecht.");
        assert(marked(CAT.6@[2], 17, 0, 'p'));
    }
}

pub proof fn lemma_dog_apart(pool: Pool)
    ensures
        told_apart(pet_lines(DOG, pool)),
{
    assert(told_apart(DOG.0@)) by {
        reveal_strlit("HOI HOI HOI!! 🐾");
        assert(marked(DOG.0@[0], 15, 0, 'H'));
        reveal_strlit("spelen?? spelen??");
        assert(marked(DOG.0@[1], 17, 0, 's'));
        reveal_strlit("kijk naar mij!!");
        assert(marked(DOG.0@[2], 15, 0, 'k'));
        reveal_strlit("oh jee oh jee!");
        assert(marked(DOG.0@[3], 14, 0, 'o'));
        reveal_strlit("hierheen!!");
        assert(marked(DOG.0@[4], 10, 0, 'h'));
    }
    assert(told_apart(DOG.1@)) by {
        reveal_strlit("JAJAJA!!");
        assert(marked(DOG.1@[0], 8, 0, 'J'));
        reveal_strlit("nog een keer!! 🐾");
        assert(marked(DOG.1@[1], 16, 0, 'n'));
        reveal_strlit("beste dag ooit!!");
        assert(marked(DOG.1@[2], 16, 0, 'b'));
        reveal_strlit("aai me meer!!");
        assert(marked(DOG.1@[3], 13, 0, 'a'));
        reveal_strlit("joepie!!");
        assert(marked(DOG.1@[4], 8, 0, 'j'));
    }
    assert(told_apart(DOG.2@)) by {
        reveal_strlit("zo saai woef");
        assert(marked(DOG.2@[0], 12, 0, 'z'));
        reveal_strlit("laten we spelen!");
        assert(marked(DOG.2@[1], 16, 0, 'l'));
        reveal_strlit("*kwispel*");
        assert(marked(DOG.2@[2], 9, 0, '*'));
        reveal_strlit("wandelen??");
        assert(marked(DOG.2@[3], 10, 0, 'w'));
    }
    assert(told_apart(DOG.3@)) by {
        reveal_strlit("voorzichtig nu!");
        assert(marked(DOG.3@[0], 15, 0, 'v'));
        reveal_strlit("boven de 80%!");
        assert(marked(DOG.3@[1], 13, 0, 'b'));
        reveal_strlit("dat is best veel!");
        assert(marked(DOG.3@[2], 17, 0, 'd'));
    }
    assert(told_apart(DOG.4@)) by {
        reveal_strlit("oei oei!!");
        assert(marked(DOG.4@[0], 9, 0, 'o'));
        reveal_strlit("bijna op!!");
        assert(marked(DOG.4@[1], 10, 0, 'b'));
        reveal_strlit("boven 90%! pas op!!");
        assert(marked(DOG.4@[2], 19, 0, 'b'));
    }
    assert(told_apart(DOG.5@)) by {
        reveal_strlit("goed gedaan vandaag!!");
        assert(marked(DOG.5@[0], 21, 0, 'g'));
        reveal_strlit("het is gelukt!!");
        assert(marked(DOG.5@[1], 15, 0, 'h'));
        reveal_strlit("zo trots!!");
        assert(marked(DOG.5@[2], 10, 0, 'z'));
    }
    assert(told_apart(DOG.6@)) by {
        reveal_strlit("gaat goed!!");
        assert(marked(DOG.6@[0], 11, 0, 'g'));
        reveal_strlit("ga zo door!!");
        assert(marked(DOG.6@[1], 12, 0, 'g'));
        reveal_strlit("jij kan dit!!");
        assert(marked(DOG.6@[2], 13, 0, 'j'));
    }
}

pub proof fn lemma_voices(pool: Pool)
    ensures
        pet_lines(CAT, pool)[0]@ != pet_lines(DOG, pool)[0]@,
{
    match pool {
        Pool::Hover => {
            reveal_strlit("...wat wil je.");
            reveal_strlit("HOI HOI HOI!! 🐾");
            assert(marked(CAT.0@[0], 14, 0, '.'));
            assert(marked(DOG.0@[0], 15, 0, 'H'));
        },
        Pool::Click => {
            reveal_strlit("moet dat nou.");
            reveal_strlit("JAJAJA!!");
            assert(marked(CAT.1@[0], 13, 0, 'm'));
            assert(marked(DOG.1@[0], 8, 0, 'J'));
        },
        Pool::Idle => {
            reveal_strlit("zzz...");
            reveal_strlit("zo saai woef");
            assert(marked(CAT.2@[0], 6, 0, 'z'));
            assert(marked(DOG.2@[0], 12, 0, 'z'));
        },
        Pool::Soft => {
            reveal_strlit("rustig aan?");
            reveal_strlit("voorzichtig nu!");
            assert(marked(CAT.3@[0], 11, 0, 'r'));
            assert(marked(DOG.3@[0], 15, 0, 'v'));
        },
        Pool::Urgent => {
            reveal_strlit("dit is slecht.");
            reveal_strlit("oei oei!!");
            assert(marked(CAT.4@[0], 14, 0, 'd'));
            assert(marked(DOG.4@[0], 9, 0, 'o'));
        },
        Pool::Rest => {
            reveal_strlit("...goed gedaan.");
            reveal_strlit("goed gedaan vandaag!!");
            assert(marked(CAT.5@[0], 15, 0, '.'));
            assert(marked(DOG.5@[0], 21, 0, 'g'));
        },
        Pool::Encourage => {
            reveal_strlit("gaat prima.");
            reveal_strlit("gaat goed!!");
            assert(marked(CAT.6@[0], 11, 5, 'p'));
            assert(marked(DOG.6@[0], 11, 5, 'g'));
        },
    }
}

pub proof fn lemma_girl_apart(pool: Pool)
    ensures
        told_apart(girl_lines(GIRL, pool)),
{
    assert(told_apart(GIRL.0@)) by {
        reveal_strlit("hoi♪");
        assert(marked(GIRL.0@[0], 4, 0, 'h'));
        reveal_strlit("wat is er?");
        assert(marked(GIRL.0@[1], 10, 0, 'w'));
        reveal_strlit("kijk je?");
        assert(marked(GIRL.0@[2], 8, 0, 'k'));
    }
    assert(told_apart(GIRL.1@)) by {
        reveal_strlit("hihi♪");
        assert(marked(GIRL.1@[0], 5, 0, 'h'));
        reveal_strlit("ja? hihi");
        assert(marked(GIRL.1@[1], 8, 0, 'j'));
        reveal_strlit("wat dan?");
        assert(marked(GIRL.1@[2], 8, 0, 'w'));
    }
    assert(told_apart(GIRL.2@)) by {
        reveal_strlit("lalala♪");
        assert(marked(GIRL.2@[0], 7, 0, 'l'));
        reveal_strlit("beetje saai");
        assert(marked(GIRL.2@[1], 11, 0, 'b'));
        reveal_strlit("...");
        assert(marked(GIRL.2@[2], 3, 0, '.'));
    }
    assert(told_apart(GIRL.3@)) by {
        reveal_strlit("boven 80%...");
        assert(marked(GIRL.3@[0], 12, 0, 'b'));
        reveal_strlit("voorzichtig, hè?");
        assert(marked(GIRL.3@[1], 16, 0, 'v'));
        reveal_strlit("gaat wat snel");
        assert(marked(GIRL.3@[2], 13, 0, 'g'));
    }
    assert(told_apart(GIRL.4@)) by {
        reveal_strlit("boven 90%...!");
        assert(marked(GIRL.4@[0], 13, 0, 'b'));
        reveal_strlit("n-niet kijken~!");
        assert(marked(GIRL.4@[1], 15, 0, 'n'));
        reveal_strlit("ik zit aan m'n grens!");
        assert(marked(GIRL.4@[2], 21, 0, 'i'));
    }
    assert(told_apart(GIRL.5@)) by {
        reveal_strlit("goed gedaan♪");
        assert(marked(GIRL.5@[0], 12, 0, 'g'));
        reveal_strlit("top vandaag");
        assert(marked(GIRL.5@[1], 11, 0, 't'));
        reveal_strlit("even pauze?");
        assert(marked(GIRL.5@[2], 11, 0, 'e'));
    }
    assert(told_apart(GIRL.6@)) by {
        reveal_strlit("gaat goed♪");
        assert(marked(GIRL.6@[0], 10, 0, 'g'));
        reveal_strlit("ga zo door!");
        assert(marked(GIRL.6@[1], 11, 0, 'g'));
        reveal_strlit("nog ruimte zat");
        assert(marked(GIRL.6@[2], 14, 0, 'n'));
    }
}

} // verus!
