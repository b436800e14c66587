use vstd::prelude::*;

verus! {

/// What the screens see of a character: its name and its class.
pub struct CharacterView {
    pub name: Seq<char>,
    pub class: Seq<char>,
}

/// The character that "new character" starts from: blank name, blank class.
pub open spec fn blank_character() -> CharacterView {
    CharacterView { name: Seq::empty(), class: Seq::empty() }
}

/// A character record as far as the screens need it.
#[derive(Clone, Debug)]
pub struct Character {
    pub name: String,
    pub class: String,
}

impl View for Character {
    type V = CharacterView;

    open spec fn view(&self) -> CharacterView {
        CharacterView { name: self.name@, class: self.class@ }
    }
}

impl Character {
    /// A freshly constructed character with a blank name and class.
    pub fn new() -> (r: Character)
        ensures
            r@ == blank_character(),
    {
        Character { name: String::new(), class: String::new() }
    }

    /// A character with the given name and class.
    pub fn with_details(name: &str, class: &str) -> (r: Character)
        ensures
            r@ == (CharacterView { name: name@, class: class@ }),
    {
        Character { name: name.to_owned(), class: class.to_owned() }
    }

    /// An independent copy of this character, equal in name and class.
    pub fn snapshot(&self) -> (r: Character)
        ensures
            r@ == self@,
    {
        Character { name: self.name.clone(), class: self.class.clone() }
    }
}

} // verus!
