use vstd::prelude::*;
use vstd::std_specs::cmp::PartialEqSpecImpl;

verus! {

/// The first word of a name.
#[derive(Debug)]
pub struct Adjective(String);

impl View for Adjective {
    type V = Seq<char>;

    closed spec fn view(&self) -> Seq<char> {
        self.0@
    }
}

impl Adjective {
    pub fn new(value: String) -> (adjective: Self)
        ensures
            adjective@ == value@,
    {
        Adjective(value)
    }

    pub fn as_str(&self) -> (text: &str)
        ensures
            text@ == self@,
    {
        self.0.as_str()
    }

    /// The word itself, as an owned string.
    pub fn to_string(&self) -> (text: String)
        ensures
            text@ == self@,
    {
        self.0.clone()
    }
}

impl Clone for Adjective {
    fn clone(&self) -> (copy: Self)
        ensures
            copy == *self,
    {
        Adjective(self.0.clone())
    }
}

impl PartialEq for Adjective {
    fn eq(&self, other: &Self) -> (same: bool) {
        self.0 == other.0
    }
}

impl PartialEqSpecImpl for Adjective {
    open spec fn obeys_eq_spec() -> bool {
        true
    }

    open spec fn eq_spec(&self, other: &Self) -> bool {
        self@ == other@
    }
}

impl Eq for Adjective {

}

/// The second word of a name.
#[derive(Debug)]
pub struct Noun(String);

impl View for Noun {
    type V = Seq<char>;

    closed spec fn view(&self) -> Seq<char> {
        self.0@
    }
}

impl Noun {
    pub fn new(value: String) -> (noun: Self)
        ensures
            noun@ == value@,
    {
        Noun(value)
    }

    pub fn as_str(&self) -> (text: &str)
        ensures
            text@ == self@,
    {
        self.0.as_str()
    }

    /// The word itself, as an owned string.
    pub fn to_string(&self) -> (text: String)
        ensures
            text@ == self@,
    {
        self.0.clone()
    }
}

impl Clone for Noun {
    fn clone(&self) -> (copy: Self)
        ensures
            copy == *self,
    {
        Noun(self.0.clone())
    }
}

impl PartialEq for Noun {
    fn eq(&self, other: &Self) -> (same: bool) {
        self.0 == other.0
    }
}

impl PartialEqSpecImpl for Noun {
    open spec fn obeys_eq_spec() -> bool {
        true
    }

    open spec fn eq_spec(&self, other: &Self) -> bool {
        self@ == other@
    }
}

impl Eq for Noun {

}

/// A generated name: one adjective and one noun.
#[derive(Debug)]
pub struct CoolName {
    adjective: Adjective,
    noun: Noun,
}

/// The text of a name made of the two given words: the first, a hyphen, the second.
pub open spec fn hyphenated(adjective: Seq<char>, noun: Seq<char>) -> Seq<char> {
    adjective + seq!['-'] + noun
}

impl View for CoolName {
    type V = (Seq<char>, Seq<char>);

    closed spec fn view(&self) -> (Seq<char>, Seq<char>) {
        (self.adjective@, self.noun@)
    }
}

impl CoolName {
    pub fn new(adjective: Adjective, noun: Noun) -> (name: Self)
        ensures
            name@ == (adjective@, noun@),
    {
        CoolName { adjective, noun }
    }

    pub fn adjective(&self) -> (adjective: &Adjective)
        ensures
            adjective@ == self@.0,
    {
        &self.adjective
    }

    pub fn noun(&self) -> (noun: &Noun)
        ensures
            noun@ == self@.1,
    {
        &self.noun
    }

    /// The canonical text of the name.
    pub open spec fn canonical(&self) -> Seq<char> {
        hyphenated(self@.0, self@.1)
    }

    /// The canonical text of the name, as an owned string.
    pub fn to_string(&self) -> (text: String)
        ensures
            text@ == self.canonical(),
    {
        proof {
            reveal_strlit("-");
        }
        let text = String::from_str(self.adjective.as_str()).concat("-").concat(self.noun.as_str());
        assert(text@ =~= self.canonical());
        text
    }
}

impl Clone for CoolName {
    fn clone(&self) -> (copy: Self)
        ensures
            copy == *self,
    {
        CoolName { adjective: self.adjective.clone(), noun: self.noun.clone() }
    }
}

impl PartialEq for CoolName {
    fn eq(&self, other: &Self) -> (same: bool) {
        self.adjective == other.adjective && self.noun == other.noun
    }
}

impl PartialEqSpecImpl for CoolName {
    open spec fn obeys_eq_spec() -> bool {
        true
    }

    open spec fn eq_spec(&self, other: &Self) -> bool {
        self@ == other@
    }
}

impl Eq for CoolName {

}

} // verus!
