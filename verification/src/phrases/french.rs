//! French phrases.

use crate::phrases::pet_pool;
use crate::phrases::GirlLines;
use crate::phrases::PetLines;
use crate::phrases::Pool;
use crate::phrases::{girl_lines, marked, pet_lines, told_apart};
use vstd::prelude::*;

verus! {

pub const CAT: PetLines = (
    ["...qu'est-ce que tu veux.", "ah, c'est toi.", "tu me fixes ?", "ouais ?", "...bon, regarde."],
    [
        "il le faut vraiment.",
        "...pff.",
        "encore ? si tu veux.",
        "ça te dérange ?",
        "bon, d'accord.",
    ],
    ["zzz...", "tellement ennuyeux.", "...", "*s'étire*"],
    ["tu ralentis ?", "plus de 80%, tu sais.", "ça fait beaucoup..."],
    ["c'est mauvais.", "presque au max.", "plus de 90%. pas mon problème."],
    ["...bien joué.", "pas mal, j'imagine.", "va te reposer."],
    ["ça roule.", "il reste de la marge.", "pff, pas mal."],
);

pub const DOG: PetLines = (
    ["COUCOU COUCOU !! 🐾", "on joue ?? on joue ??", "regarde-moi !!", "oh là là !", "par ici !!"],
    [
        "OUIOUIOUI !!",
        "encore encore !! 🐾",
        "meilleur jour !!",
        "caresse-moi encore !!",
        "youpi !!",
    ],
    ["trop ennuyeux ouaf", "on joue !", "*remue la queue*", "promenade ??"],
    ["attention !", "plus de 80% !", "ça fait pas mal !"],
    ["oh oh !!", "presque au max !!", "plus de 90% ! attention !!"],
    ["bravo aujourd'hui !!", "tu as réussi !!", "trop fier !!"],
    ["ça va super !!", "continue !!", "tu gères !!"],
);

pub const GIRL: GirlLines = (
    ["coucou♪", "qu'y a-t-il ?", "tu regardes ?"],
    ["hihi♪", "oui ? héhé", "quoi donc ?"],
    ["lalala♪", "un peu ennuyée", "..."],
    ["plus de 80%...", "attention, hein ?", "ça va un peu vite"],
    ["plus de 90%...!", "n-ne regarde pas~!", "je suis à la limite !"],
    ["bien joué♪", "super boulot aujourd'hui", "une petite pause ?"],
    ["ça roule♪", "continue !", "encore de la marge"],
);

/// What stands before and after the time in a forecast by the cat, the dog and the girl.
pub const FORECAST: [(&'static str, &'static str); 3] = [
    ("à ce rythme... fini à ", "."),
    ("oh là, 100% à ", " !!"),
    ("à ce rythme... ", " ça craint !"),
];

/// The phrases of the cat or the dog on an occasion.
pub fn fr_pool(is_cat: bool, pool: Pool) -> (r: &'static [&'static str])
    ensures
        r@ == pet_lines(if is_cat { CAT } else { DOG }, pool),
{
    if is_cat {
        pet_pool(&CAT, pool)
    } else {
        pet_pool(&DOG, pool)
    }
}

pub proof fn lemma_cat_apart(pool: Pool)
    ensures
        told_apart(pet_lines(CAT, pool)),
{
    assert(told_apart(CAT.0@)) by {
        reveal_strlit("...qu'est-ce que tu veux.");
        assert(marked(CAT.0@[0], 25, 0, '.'));
        reveal_strlit("ah, c'est toi.");
        assert(marked(CAT.0@[1], 14, 0, 'a'));
        reveal_strlit("tu me fixes ?");
        assert(marked(CAT.0@[2], 13, 0, 't'));
        reveal_strlit("ouais ?");
        assert(marked(CAT.0@[3], 7, 0, 'o'));
        reveal_strlit("...bon, regarde.");
        assert(marked(CAT.0@[4], 16, 0, '.'));
    }
    assert(told_apart(CAT.1@)) by {
        reveal_strlit("il le faut vraiment.");
        assert(marked(CAT.1@[0], 20, 0, 'i'));
        reveal_strlit("...pff.");
        assert(marked(CAT.1@[1], 7, 0, '.'));
        reveal_strlit("encore ? si tu veux.");
        assert(marked(CAT.1@[2], 20, 0, 'e'));
        reveal_strlit("ça te dérange ?");
        assert(marked(CAT.1@[3], 15, 0, 'ç'));
        reveal_strlit("bon, d'accord.");
        assert(marked(CAT.1@[4], 14, 0, 'b'));
    }
    assert(told_apart(CAT.2@)) by {
        reveal_strlit("zzz...");
        assert(marked(CAT.2@[0], 6, 0, 'z'));
        reveal_strlit("tellement ennuyeux.");
        assert(marked(CAT.2@[1], 19, 0, 't'));
        reveal_strlit("...");
        assert(marked(CAT.2@[2], 3, 0, '.'));
        reveal_strlit("*s'étire*");
        assert(marked(CAT.2@[3], 9, 0, '*'));
    }
    assert(told_apart(CAT.3@)) by {
        reveal_strlit("tu ralentis ?");
        assert(marked(CAT.3@[0], 13, 0, 't'));
        reveal_strlit("plus de 80%, tu sais.");
        assert(marked(CAT.3@[1], 21, 0, 'p'));
        reveal_strlit("ça fait beaucoup...");
        assert(marked(CAT.3@[2], 19, 0, 'ç'));
    }
    assert(told_apart(CAT.4@)) by {
        reveal_strlit("c'est mauvais.");
        assert(marked(CAT.4@[0], 14, 0, 'c'));
        reveal_strlit("presque au max.");
        assert(marked(CAT.4@[1], 15, 0, 'p'));
        reveal_strlit("plus de 90%. pas mon problème.");
        assert(marked(CAT.4@[2], 30, 0, 'p'));
    }
    assert(told_apart(CAT.5@)) by {
        reveal_strlit("...bien joué.");
        assert(marked(CAT.5@[0], 13, 0, '.'));
        reveal_strlit("pas mal, j'imagine.");
        assert(marked(CAT.5@[1], 19, 0, 'p'));
        reveal_strlit("va te reposer.");
        assert(marked(CAT.5@[2], 14, 0, 'v'));
    }
    assert(told_apart(CAT.6@)) by {
        reveal_strlit("ça roule.");
        assert(marked(CAT.6@[0], 9, 0, 'ç'));
        reveal_strlit("il reste de la marge.");
        assert(marked(CAT.6@[1], 21, 0, 'i'));
        reveal_strlit("pff, pas mal.");
        assert(marked(CAT.6@[2], 13, 0, 'p'));
    }
}

pub proof fn lemma_dog_apart(pool: Pool)
    ensures
        told_apart(pet_lines(DOG, pool)),
{
    assert(told_apart(DOG.0@)) by {
        reveal_strlit("COUCOU COUCOU !! 🐾");
        assert(marked(DOG.0@[0], 18, 0, 'C'));
        reveal_strlit("on joue ?? on joue ??");
        assert(marked(DOG.0@[1], 21, 0, 'o'));
        reveal_strlit("regarde-moi !!");
        assert(marked(DOG.0@[2], 14, 0, 'r'));
        reveal_strlit("oh là là !");
        assert(marked(DOG.0@[3], 10, 0, 'o'));
        reveal_strlit("par ici !!");
        assert(marked(DOG.0@[4], 10, 0, 'p'));
    }
    assert(told_apart(DOG.1@)) by {
        reveal_strlit("OUIOUIOUI !!");
        assert(marked(DOG.1@[0], 12, 0, 'O'));
        reveal_strlit("encore encore !! 🐾");
        assert(marked(DOG.1@[1], 18, 0, 'e'));
        reveal_strlit("meilleur jour !!");
        assert(marked(DOG.1@[2], 16, 0, 'm'));
        reveal_strlit("caresse-moi encore !!");
        assert(marked(DOG.1@[3], 21, 0, 'c'));
        reveal_strlit("youpi !!");
        assert(marked(DOG.1@[4], 8, 0, 'y'));
    }
    assert(told_apart(DOG.2@)) by {
        reveal_strlit("trop ennuyeux ouaf");
        assert(marked(DOG.2@[0], 18, 0, 't'));
        reveal_strlit("on joue !");
        assert(marked(DOG.2@[1], 9, 0, 'o'));
        reveal_strlit("*remue la queue*");
        assert(marked(DOG.2@[2], 16, 0, '*'));
        reveal_strlit("promenade ??");
        assert(marked(DOG.2@[3], 12, 0, 'p'));
    }
    assert(told_apart(DOG.3@)) by {
        reveal_strlit("attention !");
        assert(marked(DOG.3@[0], 11, 0, 'a'));
        reveal_strlit("plus de 80% !");
        assert(marked(DOG.3@[1], 13, 0, 'p'));
        reveal_strlit("ça fait pas mal !");
        assert(marked(DOG.3@[2], 17, 0, 'ç'));
    }
    assert(told_apart(DOG.4@)) by {
        reveal_strlit("oh oh !!");
        assert(marked(DOG.4@[0], 8, 0, 'o'));
        reveal_strlit("presque au max !!");
        assert(marked(DOG.4@[1], 17, 0, 'p'));
        reveal_strlit("plus de 90% ! attention !!");
        assert(marked(DOG.4@[2], 26, 0, 'p'));
    }
    assert(told_apart(DOG.5@)) by {
        reveal_strlit("bravo aujourd'hui !!");
        assert(marked(DOG.5@[0], 20, 0, 'b'));
        reveal_strlit("tu as réussi !!");
        assert(marked(DOG.5@[1], 15, 0, 't'));
        reveal_strlit("trop fier !!");
        assert(marked(DOG.5@[2], 12, 0, 't'));
    }
    assert(told_apart(DOG.6@)) by {
        reveal_strlit("ça va super !!");
        assert(marked(DOG.6@[0], 14, 0, 'ç'));
        reveal_strlit("continue !!");
        assert(marked(DOG.6@[1], 11, 0, 'c'));
        reveal_strlit("tu gères !!");
        assert(marked(DOG.6@[2], 11, 0, 't'));
    }
}

pub proof fn lemma_voices(pool: Pool)
    ensures
        pet_lines(CAT, pool)[0]@ != pet_lines(DOG, pool)[0]@,
{
    match pool {
        Pool::Hover => {
            reveal_strlit("...qu'est-ce que tu veux.");
            reveal_strlit("COUCOU COUCOU !! 🐾");
            assert(marked(CAT.0@[0], 25, 0, '.'));
            assert(marked(DOG.0@[0], 18, 0, 'C'));
        },
        Pool::Click => {
            reveal_strlit("il le faut vraiment.");
            reveal_strlit("OUIOUIOUI !!");
            assert(marked(CAT.1@[0], 20, 0, 'i'));
            assert(marked(DOG.1@[0], 12, 0, 'O'));
        },
        Pool::Idle => {
            reveal_strlit("zzz...");
            reveal_strlit("trop ennuyeux ouaf");
            assert(marked(CAT.2@[0], 6, 0, 'z'));
            assert(marked(DOG.2@[0], 18, 0, 't'));
        },
        Pool::Soft => {
            reveal_strlit("tu ralentis ?");
            reveal_strlit("attention !");
            assert(marked(CAT.3@[0], 13, 0, 't'));
            assert(marked(DOG.3@[0], 11, 0, 'a'));
        },
        Pool::Urgent => {
            reveal_strlit("c'est mauvais.");
            reveal_strlit("oh oh !!");
            assert(marked(CAT.4@[0], 14, 0, 'c'));
            assert(marked(DOG.4@[0], 8, 0, 'o'));
        },
        Pool::Rest => {
            reveal_strlit("...bien joué.");
            reveal_strlit("bravo aujourd'hui !!");
            assert(marked(CAT.5@[0], 13, 0, '.'));
            assert(marked(DOG.5@[0], 20, 0, 'b'));
        },
        Pool::Encourage => {
            reveal_strlit("ça roule.");
            reveal_strlit("ça va super !!");
            assert(marked(CAT.6@[0], 9, 0, 'ç'));
            assert(marked(DOG.6@[0], 14, 0, 'ç'));
        },
    }
}

pub proof fn lemma_girl_apart(pool: Pool)
    ensures
        told_apart(girl_lines(GIRL, pool)),
{
    assert(told_apart(GIRL.0@)) by {
        reveal_strlit("coucou♪");
        assert(marked(GIRL.0@[0], 7, 0, 'c'));
        reveal_strlit("qu'y a-t-il ?");
        assert(marked(GIRL.0@[1], 13, 0, 'q'));
        reveal_strlit("tu regardes ?");
        assert(marked(GIRL.0@[2], 13, 0, 't'));
    }
    assert(told_apart(GIRL.1@)) by {
        reveal_strlit("hihi♪");
        assert(marked(GIRL.1@[0], 5, 0, 'h'));
        reveal_strlit("oui ? héhé");
        assert(marked(GIRL.1@[1], 10, 0, 'o'));
        reveal_strlit("quoi donc ?");
        assert(marked(GIRL.1@[2], 11, 0, 'q'));
    }
    assert(told_apart(GIRL.2@)) by {
        reveal_strlit("lalala♪");
        assert(marked(GIRL.2@[0], 7, 0, 'l'));
        reveal_strlit("un peu ennuyée");
        assert(marked(GIRL.2@[1], 14, 0, 'u'));
        reveal_strlit("...");
        assert(marked(GIRL.2@[2], 3, 0, '.'));
    }
    assert(told_apart(GIRL.3@)) by {
        reveal_strlit("plus de 80%...");
        assert(marked(GIRL.3@[0], 14, 0, 'p'));
        reveal_strlit("attention, hein ?");
        assert(marked(GIRL.3@[1], 17, 0, 'a'));
        reveal_strlit("ça va un peu vite");
        assert(marked(GIRL.3@[2], 17, 0, 'ç'));
    }
    assert(told_apart(GIRL.4@)) by {
        reveal_strlit("plus de 90%...!");
        assert(marked(GIRL.4@[0], 15, 0, 'p'));
        reveal_strlit("n-ne regarde pas~!");
        assert(marked(GIRL.4@[1], 18, 0, 'n'));
        reveal_strlit("je suis à la limite !");
        assert(marked(GIRL.4@[2], 21, 0, 'j'));
    }
    assert(told_apart(GIRL.5@)) by {
        reveal_strlit("bien joué♪");
        assert(marked(GIRL.5@[0], 10, 0, 'b'));
        reveal_strlit("super boulot aujourd'hui");
        assert(marked(GIRL.5@[1], 24, 0, 's'));
        reveal_strlit("une petite pause ?");
        assert(marked(GIRL.5@[2], 18, 0, 'u'));
    }
    assert(told_apart(GIRL.6@)) by {
        reveal_strlit("ça roule♪");
        assert(marked(GIRL.6@[0], 9, 0, 'ç'));
        reveal_strlit("continue !");
        assert(marked(GIRL.6@[1], 10, 0, 'c'));
        reveal_strlit("encore de la marge");
        assert(marked(GIRL.6@[2], 18, 0, 'e'));
    }
}

} // verus!
