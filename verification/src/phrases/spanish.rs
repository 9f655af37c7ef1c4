//! Spanish phrases.

use crate::phrases::pet_pool;
use crate::phrases::GirlLines;
use crate::phrases::PetLines;
use crate::phrases::Pool;
use crate::phrases::{girl_lines, marked, pet_lines, told_apart};
use vstd::prelude::*;

verus! {

pub const CAT: PetLines = (
    ["...qué quieres.", "ah, eres tú.", "¿me estás mirando?", "¿sí?", "...vale, mira."],
    ["¿en serio?", "...bah.", "¿otra vez? como quieras.", "¿te importa?", "está bien, supongo."],
    ["zzz...", "qué aburrimiento.", "...", "*estira*"],
    ["¿bajas el ritmo?", "más del 80%, ¿eh?", "eso es mucho..."],
    ["esto va mal.", "casi al límite.", "más del 90%. no es mi problema."],
    ["...buen trabajo.", "no está mal, supongo.", "ve a descansar."],
    ["vas bien.", "queda de sobra.", "bah, no está mal."],
);

pub const DOG: PetLines = (
    ["¡¡HOLA HOLA!! 🐾", "¿¿jugamos??", "¡¡mírame!!", "¡ay qué emoción!", "¡¡por aquí!!"],
    ["¡¡SÍSÍSÍ!!", "¡¡otra vez!! 🐾", "¡¡el mejor día!!", "¡¡acaríciame más!!", "¡¡yupi!!"],
    ["qué aburrido guau", "¡a jugar!", "*mueve la cola*", "¿¿paseo??"],
    ["¡cuidado ya!", "¡más del 80%!", "¡eso es bastante!"],
    ["¡¡ay no!!", "¡¡casi al límite!!", "¡¡más del 90%! ¡cuidado!!"],
    ["¡¡buen trabajo hoy!!", "¡¡lo lograste!!", "¡¡qué orgullo!!"],
    ["¡¡vas genial!!", "¡¡sigue así!!", "¡¡tú puedes!!"],
);

pub const GIRL: GirlLines = (
    ["¡holaa♪", "¿qué pasa?", "¿me miras?"],
    ["¡ay♪", "¿sí? jiji", "¿qué pasa?"],
    ["lalala♪", "qué aburrido", "..."],
    ["más del 80%...", "cuidado, ¿sí?", "vas un poco rápido"],
    ["¡más del 90%...!", "¡n-no mires~!", "¡estoy al límite!"],
    ["¡bien hecho♪", "hoy lo hiciste genial", "¿un descanso?"],
    ["¡vas genial♪", "¡sigue así!", "aún queda margen"],
);

/// What stands before and after the time in a forecast by the cat, the dog and the girl.
pub const FORECAST: [(&'static str, &'static str); 3] = [
    ("a este ritmo... listo a las ", "."),
    ("¡¡uy, 100% a las ", "!!"),
    ("a este ritmo... ¡", " pinta mal!"),
];

/// The phrases of the cat or the dog on an occasion.
pub fn es_pool(is_cat: bool, pool: Pool) -> (r: &'static [&'static str])
    ensures
        r@ == pet_lines(if is_cat { CAT } else { DOG }, pool),
{
    if is_cat {
        pet_pool(&CAT, pool)
    } else {
        pet_pool(&DOG, pool)
    }
}

pub proof fn lemma_cat_apart(pool: Pool)
    ensures
        told_apart(pet_lines(CAT, pool)),
{
    assert(told_apart(CAT.0@)) by {
        reveal_strlit("...qué quieres.");
        assert(marked(CAT.0@[0], 15, 0, '.'));
        reveal_strlit("ah, eres tú.");
        assert(marked(CAT.0@[1], 12, 0, 'a'));
        reveal_strlit("¿me estás mirando?");
        assert(marked(CAT.0@[2], 18, 0, '¿'));
        reveal_strlit("¿sí?");
        assert(marked(CAT.0@[3], 4, 0, '¿'));
        reveal_strlit("...vale, mira.");
        assert(marked(CAT.0@[4], 14, 0, '.'));
    }
    assert(told_apart(CAT.1@)) by {
        reveal_strlit("¿en serio?");
        assert(marked(CAT.1@[0], 10, 0, '¿'));
        reveal_strlit("...bah.");
        assert(marked(CAT.1@[1], 7, 0, '.'));
        reveal_strlit("¿otra vez? como quieras.");
        assert(marked(CAT.1@[2], 24, 0, '¿'));
        reveal_strlit("¿te importa?");
        assert(marked(CAT.1@[3], 12, 0, '¿'));
        reveal_strlit("está bien, supongo.");
        assert(marked(CAT.1@[4], 19, 0, 'e'));
    }
    assert(told_apart(CAT.2@)) by {
        reveal_strlit("zzz...");
        assert(marked(CAT.2@[0], 6, 0, 'z'));
        reveal_strlit("qué aburrimiento.");
        assert(marked(CAT.2@[1], 17, 0, 'q'));
        reveal_strlit("...");
        assert(marked(CAT.2@[2], 3, 0, '.'));
        reveal_strlit("*estira*");
        assert(marked(CAT.2@[3], 8, 0, '*'));
    }
    assert(told_apart(CAT.3@)) by {
        reveal_strlit("¿bajas el ritmo?");
        assert(marked(CAT.3@[0], 16, 0, '¿'));
        reveal_strlit("más del 80%, ¿eh?");
        assert(marked(CAT.3@[1], 17, 0, 'm'));
        reveal_strlit("eso es mucho...");
        assert(marked(CAT.3@[2], 15, 0, 'e'));
    }
    assert(told_apart(CAT.4@)) by {
        reveal_strlit("esto va mal.");
        assert(marked(CAT.4@[0], 12, 0, 'e'));
        reveal_strlit("casi al límite.");
        assert(marked(CAT.4@[1], 15, 0, 'c'));
        reveal_strlit("más del 90%. no es mi problema.");
        assert(marked(CAT.4@[2], 31, 0, 'm'));
    }
    assert(told_apart(CAT.5@)) by {
        reveal_strlit("...buen trabajo.");
        assert(marked(CAT.5@[0], 16, 0, '.'));
        reveal_strlit("no está mal, supongo.");
        assert(marked(CAT.5@[1], 21, 0, 'n'));
        reveal_strlit("ve a descansar.");
        assert(marked(CAT.5@[2], 15, 0, 'v'));
    }
    assert(told_apart(CAT.6@)) by {
        reveal_strlit("vas bien.");
        assert(marked(CAT.6@[0], 9, 0, 'v'));
        reveal_strlit("queda de sobra.");
        assert(marked(CAT.6@[1], 15, 0, 'q'));
        reveal_strlit("bah, no está mal.");
        assert(marked(CAT.6@[2], 17, 0, 'b'));
    }
}

pub proof fn lemma_dog_apart(pool: Pool)
    ensures
        told_apart(pet_lines(DOG, pool)),
{
    assert(told_apart(DOG.0@)) by {
        reveal_strlit("¡¡HOLA HOLA!! 🐾");
        assert(marked(DOG.0@[0], 15, 0, '¡'));
        reveal_strlit("¿¿jugamos??");
        assert(marked(DOG.0@[1], 11, 0, '¿'));
        reveal_strlit("¡¡mírame!!");
        assert(marked(DOG.0@[2], 10, 0, '¡'));
        reveal_strlit("¡ay qué emoción!");
        assert(marked(DOG.0@[3], 16, 0, '¡'));
        reveal_strlit("¡¡por aquí!!");
        assert(marked(DOG.0@[4], 12, 0, '¡'));
    }
    assert(told_apart(DOG.1@)) by {
        reveal_strlit("¡¡SÍSÍSÍ!!");
        assert(marked(DOG.1@[0], 10, 0, '¡'));
        reveal_strlit("¡¡otra vez!! 🐾");
        assert(marked(DOG.1@[1], 14, 0, '¡'));
        reveal_strlit("¡¡el mejor día!!");
        assert(marked(DOG.1@[2], 16, 0, '¡'));
        reveal_strlit("¡¡acaríciame más!!");
        assert(marked(DOG.1@[3], 18, 0, '¡'));
        reveal_strlit("¡¡yupi!!");
        assert(marked(DOG.1@[4], 8, 0, '¡'));
    }
    assert(told_apart(DOG.2@)) by {
        reveal_strlit("qué aburrido guau");
        assert(marked(DOG.2@[0], 17, 0, 'q'));
        reveal_strlit("¡a jugar!");
        assert(marked(DOG.2@[1], 9, 0, '¡'));
        reveal_strlit("*mueve la cola*");
        assert(marked(DOG.2@[2], 15, 0, '*'));
        reveal_strlit("¿¿paseo??");
        assert(marked(DOG.2@[3], 9, 0, '¿'));
    }
    assert(told_apart(DOG.3@)) by {
        reveal_strlit("¡cuidado ya!");
        assert(marked(DOG.3@[0], 12, 0, '¡'));
        reveal_strlit("¡más del 80%!");
        assert(marked(DOG.3@[1], 13, 0, '¡'));
        reveal_strlit("¡eso es bastante!");
        assert(marked(DOG.3@[2], 17, 0, '¡'));
    }
    assert(told_apart(DOG.4@)) by {
        reveal_strlit("¡¡ay no!!");
        assert(marked(DOG.4@[0], 9, 0, '¡'));
        reveal_strlit("¡¡casi al límite!!");
        assert(marked(DOG.4@[1], 18, 0, '¡'));
        reveal_strlit("¡¡más del 90%! ¡cuidado!!");
        assert(marked(DOG.4@[2], 25, 0, '¡'));
    }
    assert(told_apart(DOG.5@)) by {
        reveal_strlit("¡¡buen trabajo hoy!!");
        assert(marked(DOG.5@[0], 20, 2, 'b'));
        reveal_strlit("¡¡lo lograste!!");
        assert(marked(DOG.5@[1], 15, 2, 'l'));
        reveal_strlit("¡¡qué orgullo!!");
        assert(marked(DOG.5@[2], 15, 2, 'q'));
    }
    assert(told_apart(DOG.6@)) by {
        reveal_strlit("¡¡vas genial!!");
        assert(marked(DOG.6@[0], 14, 2, 'v'));
        reveal_strlit("¡¡sigue así!!");
        assert(marked(DOG.6@[1], 13, 2, 's'));
        reveal_strlit("¡¡tú puedes!!");
        assert(marked(DOG.6@[2], 13, 2, 't'));
    }
}

pub proof fn lemma_voices(pool: Pool)
    ensures
        pet_lines(CAT, pool)[0]@ != pet_lines(DOG, pool)[0]@,
{
    match pool {
        Pool::Hover => {
            reveal_strlit("...qué quieres.");
            reveal_strlit("¡¡HOLA HOLA!! 🐾");
            assert(marked(CAT.0@[0], 15, 0, '.'));
            assert(marked(DOG.0@[0], 15, 0, '¡'));
        },
        Pool::Click => {
            reveal_strlit("¿en serio?");
            reveal_strlit("¡¡SÍSÍSÍ!!");
            assert(marked(CAT.1@[0], 10, 0, '¿'));
            assert(marked(DOG.1@[0], 10, 0, '¡'));
        },
        Pool::Idle => {
            reveal_strlit("zzz...");
            reveal_strlit("qué aburrido guau");
            assert(marked(CAT.2@[0], 6, 0, 'z'));
            assert(marked(DOG.2@[0], 17, 0, 'q'));
        },
        Pool::Soft => {
            reveal_strlit("¿bajas el ritmo?");
            reveal_strlit("¡cuidado ya!");
            assert(marked(CAT.3@[0], 16, 0, '¿'));
            assert(marked(DOG.3@[0], 12, 0, '¡'));
        },
        Pool::Urgent => {
            reveal_strlit("esto va mal.");
            reveal_strlit("¡¡ay no!!");
            assert(marked(CAT.4@[0], 12, 0, 'e'));
            assert(marked(DOG.4@[0], 9, 0, '¡'));
        },
        Pool::Rest => {
            reveal_strlit("...buen trabajo.");
            reveal_strlit("¡¡buen trabajo hoy!!");
            assert(marked(CAT.5@[0], 16, 0, '.'));
            assert(marked(DOG.5@[0], 20, 0, '¡'));
        },
        Pool::Encourage => {
            reveal_strlit("vas bien.");
            reveal_strlit("¡¡vas genial!!");
            assert(marked(CAT.6@[0], 9, 0, 'v'));
            assert(marked(DOG.6@[0], 14, 0, '¡'));
        },
    }
}

pub proof fn lemma_girl_apart(pool: Pool)
    ensures
        told_apart(girl_lines(GIRL, pool)),
{
    assert(told_apart(GIRL.0@)) by {
        reveal_strlit("¡holaa♪");
        assert(marked(GIRL.0@[0], 7, 1, 'h'));
        reveal_strlit("¿qué pasa?");
        assert(marked(GIRL.0@[1], 10, 1, 'q'));
        reveal_strlit("¿me miras?");
        assert(marked(GIRL.0@[2], 10, 1, 'm'));
    }
    assert(told_apart(GIRL.1@)) by {
        reveal_strlit("¡ay♪");
        assert(marked(GIRL.1@[0], 4, 0, '¡'));
        reveal_strlit("¿sí? jiji");
        assert(marked(GIRL.1@[1], 9, 0, '¿'));
        reveal_strlit("¿qué pasa?");
        assert(marked(GIRL.1@[2], 10, 0, '¿'));
    }
    assert(told_apart(GIRL.2@)) by {
        reveal_strlit("lalala♪");
        assert(marked(GIRL.2@[0], 7, 0, 'l'));
        reveal_strlit("qué aburrido");
        assert(marked(GIRL.2@[1], 12, 0, 'q'));
        reveal_strlit("...");
        assert(marked(GIRL.2@[2], 3, 0, '.'));
    }
    assert(told_apart(GIRL.3@)) by {
        reveal_strlit("más del 80%...");
        assert(marked(GIRL.3@[0], 14, 0, 'm'));
        reveal_strlit("cuidado, ¿sí?");
        assert(marked(GIRL.3@[1], 13, 0, 'c'));
        reveal_strlit("vas un poco rápido");
        assert(marked(GIRL.3@[2], 18, 0, 'v'));
    }
    assert(told_apart(GIRL.4@)) by {
        reveal_strlit("¡más del 90%...!");
        assert(marked(GIRL.4@[0], 16, 0, '¡'));
        reveal_strlit("¡n-no mires~!");
        assert(marked(GIRL.4@[1], 13, 0, '¡'));
        reveal_strlit("¡estoy al límite!");
        assert(marked(GIRL.4@[2], 17, 0, '¡'));
    }
    assert(told_apart(GIRL.5@)) by {
        reveal_strlit("¡bien hecho♪");
        assert(marked(GIRL.5@[0], 12, 0, '¡'));
        reveal_strlit("hoy lo hiciste genial");
        assert(marked(GIRL.5@[1], 21, 0, 'h'));
        reveal_strlit("¿un descanso?");
        assert(marked(GIRL.5@[2], 13, 0, '¿'));
    }
    assert(told_apart(GIRL.6@)) by {
        reveal_strlit("¡vas genial♪");
        assert(marked(GIRL.6@[0], 12, 0, '¡'));
        reveal_strlit("¡sigue así!");
        assert(marked(GIRL.6@[1], 11, 0, '¡'));
        reveal_strlit("aún queda margen");
        assert(marked(GIRL.6@[2], 16, 0, 'a'));
    }
}

} // verus!
