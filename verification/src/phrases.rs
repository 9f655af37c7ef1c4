//! What the characters say, by language, speaker and occasion.
//!
//! The cat is aloof and sarcastic, the dog eager and loud, the girl cheerful until usage climbs.
//! Each language has phrases of its own rather than a literal rendering of another's.

pub mod chinese;
pub mod dutch;
pub mod english;
pub mod french;
pub mod german;
pub mod japanese;
pub mod korean;
pub mod spanish;

use crate::language::LanguageId;
use vstd::prelude::*;

verus! {

/// Who speaks.
#[derive(Clone, Copy, Debug, PartialEq, Eq, Structural)]
pub enum Species {
    Cat,
    Dog,
    Girl,
}

/// What a phrase is for.
#[derive(Clone, Copy, Debug, PartialEq, Eq, Structural)]
pub enum Pool {
    Hover,
    Click,
    Idle,
    Soft,
    Urgent,
    Rest,
    Encourage,
}

/// How many pools there are.
pub const POOL_COUNT: usize = 7;

/// The phrases of a cat or dog in one language, pool by pool.
pub type PetLines = (
    [&'static str; 5],
    [&'static str; 5],
    [&'static str; 4],
    [&'static str; 3],
    [&'static str; 3],
    [&'static str; 3],
    [&'static str; 3],
);

/// The phrases of the girl in one language, pool by pool.
pub type GirlLines = (
    [&'static str; 3],
    [&'static str; 3],
    [&'static str; 3],
    [&'static str; 3],
    [&'static str; 3],
    [&'static str; 3],
    [&'static str; 3],
);

/// The place of a pool among the pools.
pub open spec fn pool_slot(p: Pool) -> int {
    match p {
        Pool::Hover => 0,
        Pool::Click => 1,
        Pool::Idle => 2,
        Pool::Soft => 3,
        Pool::Urgent => 4,
        Pool::Rest => 5,
        Pool::Encourage => 6,
    }
}

pub fn pool_index(p: Pool) -> (i: usize)
    ensures
        i == pool_slot(p),
        i < POOL_COUNT,
{
    match p {
        Pool::Hover => 0,
        Pool::Click => 1,
        Pool::Idle => 2,
        Pool::Soft => 3,
        Pool::Urgent => 4,
        Pool::Rest => 5,
        Pool::Encourage => 6,
    }
}

/// One pool out of a table.
pub open spec fn pet_lines(t: PetLines, pool: Pool) -> Seq<&'static str> {
    match pool {
        Pool::Hover => t.0@,
        Pool::Click => t.1@,
        Pool::Idle => t.2@,
        Pool::Soft => t.3@,
        Pool::Urgent => t.4@,
        Pool::Rest => t.5@,
        Pool::Encourage => t.6@,
    }
}

/// One pool out of a table of the girl's.
pub open spec fn girl_lines(t: GirlLines, pool: Pool) -> Seq<&'static str> {
    match pool {
        Pool::Hover => t.0@,
        Pool::Click => t.1@,
        Pool::Idle => t.2@,
        Pool::Soft => t.3@,
        Pool::Urgent => t.4@,
        Pool::Rest => t.5@,
        Pool::Encourage => t.6@,
    }
}

/// The cat's table in a language.
pub open spec fn cat_table(lang: LanguageId) -> PetLines {
    match lang {
        LanguageId::English => english::CAT,
        LanguageId::Dutch => dutch::CAT,
        LanguageId::Spanish => spanish::CAT,
        LanguageId::French => french::CAT,
        LanguageId::German => german::CAT,
        LanguageId::Japanese => japanese::CAT,
        LanguageId::Korean => korean::CAT,
        LanguageId::TraditionalChinese => chinese::CAT,
    }
}

/// The dog's table in a language.
pub open spec fn dog_table(lang: LanguageId) -> PetLines {
    match lang {
        LanguageId::English => english::DOG,
        LanguageId::Dutch => dutch::DOG,
        LanguageId::Spanish => spanish::DOG,
        LanguageId::French => french::DOG,
        LanguageId::German => german::DOG,
        LanguageId::Japanese => japanese::DOG,
        LanguageId::Korean => korean::DOG,
        LanguageId::TraditionalChinese => chinese::DOG,
    }
}

/// The girl's table in a language.
pub open spec fn girl_table(lang: LanguageId) -> GirlLines {
    match lang {
        LanguageId::English => english::GIRL,
        LanguageId::Dutch => dutch::GIRL,
        LanguageId::Spanish => spanish::GIRL,
        LanguageId::French => french::GIRL,
        LanguageId::German => german::GIRL,
        LanguageId::Japanese => japanese::GIRL,
        LanguageId::Korean => korean::GIRL,
        LanguageId::TraditionalChinese => chinese::GIRL,
    }
}

/// What `species` has to say in a language on an occasion.
#[verifier::opaque]
pub open spec fn lines(lang: LanguageId, species: Species, pool: Pool) -> Seq<&'static str> {
    match species {
        Species::Cat => pet_lines(cat_table(lang), pool),
        Species::Dog => pet_lines(dog_table(lang), pool),
        Species::Girl => girl_lines(girl_table(lang), pool),
    }
}

pub fn pet_pool(t: &'static PetLines, pool: Pool) -> (r: &'static [&'static str])
    ensures
        r@ == pet_lines(*t, pool),
{
    match pool {
        Pool::Hover => &t.0,
        Pool::Click => &t.1,
        Pool::Idle => &t.2,
        Pool::Soft => &t.3,
        Pool::Urgent => &t.4,
        Pool::Rest => &t.5,
        Pool::Encourage => &t.6,
    }
}

pub fn girl_pool(lang: LanguageId, pool: Pool) -> (r: &'static [&'static str])
    ensures
        r@ == lines(lang, Species::Girl, pool),
{
    proof {
        reveal(lines);
    }
    let t: &'static GirlLines = match lang {
        LanguageId::English => &english::GIRL,
        LanguageId::Dutch => &dutch::GIRL,
        LanguageId::Spanish => &spanish::GIRL,
        LanguageId::French => &french::GIRL,
        LanguageId::German => &german::GIRL,
        LanguageId::Japanese => &japanese::GIRL,
        LanguageId::Korean => &korean::GIRL,
        LanguageId::TraditionalChinese => &chinese::GIRL,
    };
    match pool {
        Pool::Hover => &t.0,
        Pool::Click => &t.1,
        Pool::Idle => &t.2,
        Pool::Soft => &t.3,
        Pool::Urgent => &t.4,
        Pool::Rest => &t.5,
        Pool::Encourage => &t.6,
    }
}

/// The phrases that `species` picks from.
pub fn message_pool(lang: LanguageId, species: Species, pool: Pool) -> (r: &'static [&'static str])
    ensures
        r@ == lines(lang, species, pool),
{
    proof {
        reveal(lines);
    }
    let is_cat: bool = match species {
        Species::Girl => {
            return girl_pool(lang, pool);
        },
        Species::Cat => true,
        Species::Dog => false,
    };
    match lang {
        LanguageId::English => english::en_pool(is_cat, pool),
        LanguageId::Dutch => dutch::nl_pool(is_cat, pool),
        LanguageId::Spanish => spanish::es_pool(is_cat, pool),
        LanguageId::French => french::fr_pool(is_cat, pool),
        LanguageId::German => german::de_pool(is_cat, pool),
        LanguageId::Japanese => japanese::ja_pool(is_cat, pool),
        LanguageId::Korean => korean::ko_pool(is_cat, pool),
        LanguageId::TraditionalChinese => chinese::zh_pool(is_cat, pool),
    }
}

/// No phrase is empty, and no two are the same.
pub open spec fn told_apart(s: Seq<&'static str>) -> bool {
    &&& forall|i: int| 0 <= i < s.len() ==> (#[trigger] s[i])@.len() > 0
    &&& forall|i: int, j: int|
        0 <= i < s.len() && 0 <= j < s.len() && i != j ==> (#[trigger] s[i])@ != (#[trigger] s[j])@
}

/// A phrase's length, and one of its characters where it is long enough to have it.
pub open spec fn marked(s: &'static str, n: int, k: int, c: char) -> bool {
    s@.len() == n && (0 <= k < n ==> s@[k] == c)
}

/// How many phrases a character has on an occasion, whatever the language.
pub open spec fn pool_size(species: Species, pool: Pool) -> nat {
    if species == Species::Girl {
        3
    } else {
        match pool {
            Pool::Hover | Pool::Click => 5,
            Pool::Idle => 4,
            Pool::Soft | Pool::Urgent | Pool::Rest | Pool::Encourage => 3,
        }
    }
}

/// On every occasion a character has as many phrases in one language as in every other, at least
/// three, none of them empty and no two of them the same.
pub proof fn law_pools_are_varied(lang: LanguageId, species: Species, pool: Pool)
    ensures
        lines(lang, species, pool).len() == pool_size(species, pool),
        3 <= lines(lang, species, pool).len() <= 5,
        told_apart(lines(lang, species, pool)),
{
    reveal(lines);
    match species {
        Species::Cat => match lang {
            LanguageId::English => english::lemma_cat_apart(pool),
            LanguageId::Dutch => dutch::lemma_cat_apart(pool),
            LanguageId::Spanish => spanish::lemma_cat_apart(pool),
            LanguageId::French => french::lemma_cat_apart(pool),
            LanguageId::German => german::lemma_cat_apart(pool),
            LanguageId::Japanese => japanese::lemma_cat_apart(pool),
            LanguageId::Korean => korean::lemma_cat_apart(pool),
            LanguageId::TraditionalChinese => chinese::lemma_cat_apart(pool),
        },
        Species::Dog => match lang {
            LanguageId::English => english::lemma_dog_apart(pool),
            LanguageId::Dutch => dutch::lemma_dog_apart(pool),
            LanguageId::Spanish => spanish::lemma_dog_apart(pool),
            LanguageId::French => french::lemma_dog_apart(pool),
            LanguageId::German => german::lemma_dog_apart(pool),
            LanguageId::Japanese => japanese::lemma_dog_apart(pool),
            LanguageId::Korean => korean::lemma_dog_apart(pool),
            LanguageId::TraditionalChinese => chinese::lemma_dog_apart(pool),
        },
        Species::Girl => match lang {
            LanguageId::English => english::lemma_girl_apart(pool),
            LanguageId::Dutch => dutch::lemma_girl_apart(pool),
            LanguageId::Spanish => spanish::lemma_girl_apart(pool),
            LanguageId::French => french::lemma_girl_apart(pool),
            LanguageId::German => german::lemma_girl_apart(pool),
            LanguageId::Japanese => japanese::lemma_girl_apart(pool),
            LanguageId::Korean => korean::lemma_girl_apart(pool),
            LanguageId::TraditionalChinese => chinese::lemma_girl_apart(pool),
        },
    }
}

/// The cat and the dog have voices of their own: on every occasion and in every language their pools
/// differ, and differ in their first phrases.
pub proof fn law_voices_differ(lang: LanguageId, pool: Pool)
    ensures
        lines(lang, Species::Cat, pool)[0]@ != lines(lang, Species::Dog, pool)[0]@,
        lines(lang, Species::Cat, pool) != lines(lang, Species::Dog, pool),
{
    reveal(lines);
    match lang {
        LanguageId::English => english::lemma_voices(pool),
        LanguageId::Dutch => dutch::lemma_voices(pool),
        LanguageId::Spanish => spanish::lemma_voices(pool),
        LanguageId::French => french::lemma_voices(pool),
        LanguageId::German => german::lemma_voices(pool),
        LanguageId::Japanese => japanese::lemma_voices(pool),
        LanguageId::Korean => korean::lemma_voices(pool),
        LanguageId::TraditionalChinese => chinese::lemma_voices(pool),
    }
}

/// Everything that the three characters say in a language is out of these three tables, each pool out
/// of its own place in its speaker's table.
pub open spec fn heard(lang: LanguageId, cat: PetLines, dog: PetLines, girl: GirlLines) -> bool {
    &&& lines(lang, Species::Cat, Pool::Hover) == cat.0@
    &&& lines(lang, Species::Cat, Pool::Click) == cat.1@
    &&& lines(lang, Species::Cat, Pool::Idle) == cat.2@
    &&& lines(lang, Species::Cat, Pool::Soft) == cat.3@
    &&& lines(lang, Species::Cat, Pool::Urgent) == cat.4@
    &&& lines(lang, Species::Cat, Pool::Rest) == cat.5@
    &&& lines(lang, Species::Cat, Pool::Encourage) == cat.6@
    &&& lines(lang, Species::Dog, Pool::Hover) == dog.0@
    &&& lines(lang, Species::Dog, Pool::Click) == dog.1@
    &&& lines(lang, Species::Dog, Pool::Idle) == dog.2@
    &&& lines(lang, Species::Dog, Pool::Soft) == dog.3@
    &&& lines(lang, Species::Dog, Pool::Urgent) == dog.4@
    &&& lines(lang, Species::Dog, Pool::Rest) == dog.5@
    &&& lines(lang, Species::Dog, Pool::Encourage) == dog.6@
    &&& lines(lang, Species::Girl, Pool::Hover) == girl.0@
    &&& lines(lang, Species::Girl, Pool::Click) == girl.1@
    &&& lines(lang, Species::Girl, Pool::Idle) == girl.2@
    &&& lines(lang, Species::Girl, Pool::Soft) == girl.3@
    &&& lines(lang, Species::Girl, Pool::Urgent) == girl.4@
    &&& lines(lang, Species::Girl, Pool::Rest) == girl.5@
    &&& lines(lang, Species::Girl, Pool::Encourage) == girl.6@
}

/// The characters speak the language that they are set to, each with its own words for the occasion.
pub proof fn law_characters_speak_their_language()
    ensures
        heard(LanguageId::English, english::CAT, english::DOG, english::GIRL),
        heard(LanguageId::Dutch, dutch::CAT, dutch::DOG, dutch::GIRL),
        heard(LanguageId::Spanish, spanish::CAT, spanish::DOG, spanish::GIRL),
        heard(LanguageId::French, french::CAT, french::DOG, french::GIRL),
        heard(LanguageId::German, german::CAT, german::DOG, german::GIRL),
        heard(LanguageId::Japanese, japanese::CAT, japanese::DOG, japanese::GIRL),
        heard(LanguageId::Korean, korean::CAT, korean::DOG, korean::GIRL),
        heard(LanguageId::TraditionalChinese, chinese::CAT, chinese::DOG, chinese::GIRL),
{
    reveal(lines);
}

/// Every pool has a place of its own among seven, so that what came last out of one is not mistaken
/// for what came last out of another.
pub proof fn law_pools_have_places_of_their_own(p: Pool, q: Pool)
    ensures
        0 <= pool_slot(p) < 7,
        pool_slot(p) == pool_slot(q) ==> p == q,
{
}

} // verus!
