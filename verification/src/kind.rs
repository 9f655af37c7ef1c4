//! Which characters are on show.

use vstd::prelude::*;

verus! {

#[derive(Clone, Copy, Debug, PartialEq, Eq, Structural)]
pub enum CharacterKind {
    Cat,
    Dog,
    Girl,
    Both,
}

/// The word that a choice is saved as.
pub open spec fn code_of(kind: CharacterKind) -> Seq<char> {
    match kind {
        CharacterKind::Cat => "cat"@,
        CharacterKind::Dog => "dog"@,
        CharacterKind::Girl => "girl"@,
        CharacterKind::Both => "both"@,
    }
}

/// The choice that a word stands for.
pub open spec fn kind_of_code(code: Seq<char>) -> Option<CharacterKind> {
    if code == "cat"@ {
        Some(CharacterKind::Cat)
    } else if code == "dog"@ {
        Some(CharacterKind::Dog)
    } else if code == "girl"@ {
        Some(CharacterKind::Girl)
    } else if code == "both"@ {
        Some(CharacterKind::Both)
    } else {
        None
    }
}

impl CharacterKind {
    pub fn code(self) -> (code: &'static str)
        ensures
            code@ == code_of(self),
    {
        match self {
            CharacterKind::Cat => "cat",
            CharacterKind::Dog => "dog",
            CharacterKind::Girl => "girl",
            CharacterKind::Both => "both",
        }
    }

    pub fn from_code(code: &str) -> (kind: Option<CharacterKind>)
        ensures
            kind == kind_of_code(code@),
    {
        let word: String = code.to_string();
        if word == "cat".to_string() {
            Some(CharacterKind::Cat)
        } else if word == "dog".to_string() {
            Some(CharacterKind::Dog)
        } else if word == "girl".to_string() {
            Some(CharacterKind::Girl)
        } else if word == "both".to_string() {
            Some(CharacterKind::Both)
        } else {
            None
        }
    }

    pub open spec fn has_cat(self) -> bool {
        self == CharacterKind::Cat || self == CharacterKind::Both
    }

    pub open spec fn has_dog(self) -> bool {
        self == CharacterKind::Dog || self == CharacterKind::Both
    }

    pub open spec fn has_girl(self) -> bool {
        self == CharacterKind::Girl
    }

    pub fn shows_cat(self) -> (b: bool)
        ensures
            b == self.has_cat(),
    {
        matches!(self, CharacterKind::Cat | CharacterKind::Both)
    }

    pub fn shows_dog(self) -> (b: bool)
        ensures
            b == self.has_dog(),
    {
        matches!(self, CharacterKind::Dog | CharacterKind::Both)
    }

    pub fn shows_girl(self) -> (b: bool)
        ensures
            b == self.has_girl(),
    {
        matches!(self, CharacterKind::Girl)
    }
}

proof fn lemma_codes()
    ensures
        "cat"@ != "dog"@,
        "cat"@ != "girl"@,
        "cat"@ != "both"@,
        "dog"@ != "girl"@,
        "dog"@ != "both"@,
        "girl"@ != "both"@,
{
    reveal_strlit("cat");
    reveal_strlit("dog");
    reveal_strlit("girl");
    reveal_strlit("both");
    assert("cat"@[0] != "dog"@[0]);
    assert("girl"@[0] != "both"@[0]);
    assert("cat"@.len() == 3 && "dog"@.len() == 3 && "girl"@.len() == 4 && "both"@.len() == 4);
}

/// A saved choice is read back as what it was.
pub proof fn law_codes_are_read_back(kind: CharacterKind)
    ensures
        kind_of_code(code_of(kind)) == Some(kind),
{
    lemma_codes();
}

/// A word is read as a choice only if it is what that choice is saved as.
pub proof fn law_only_codes_are_read(code: Seq<char>)
    ensures
        match kind_of_code(code) {
            Some(kind) => code == code_of(kind),
            None => forall|kind: CharacterKind| code != #[trigger] code_of(kind),
        },
{
}

/// Each choice is saved under its own English name, and shows whom it names; "both" are the cat and
/// the dog.
pub proof fn law_choices_show_whom_they_name(kind: CharacterKind)
    ensures
        code_of(kind) == "cat"@ <==> kind == CharacterKind::Cat,
        code_of(kind) == "dog"@ <==> kind == CharacterKind::Dog,
        code_of(kind) == "girl"@ <==> kind == CharacterKind::Girl,
        code_of(kind) == "both"@ <==> kind == CharacterKind::Both,
        kind.has_cat() <==> code_of(kind) == "cat"@ || code_of(kind) == "both"@,
        kind.has_dog() <==> code_of(kind) == "dog"@ || code_of(kind) == "both"@,
        kind.has_girl() <==> code_of(kind) == "girl"@,
{
    lemma_codes();
}

} // verus!
