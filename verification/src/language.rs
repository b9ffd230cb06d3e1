use vstd::prelude::*;

verus! {

/// One language spoken at the looked-up location. A location may report
/// several.
#[derive(Clone, Debug)]
pub struct Language {
    pub name: String,
    pub native: String,
}

/// The mathematical value of a `Language`: its fields as character sequences.
pub struct LanguageV {
    pub name: Seq<char>,
    pub native: Seq<char>,
}

impl View for Language {
    type V = LanguageV;

    open spec fn view(&self) -> LanguageV {
        LanguageV { name: self.name@, native: self.native@ }
    }
}

impl DeepView for Language {
    type V = LanguageV;

    open spec fn deep_view(&self) -> LanguageV {
        self.view()
    }
}

impl Language {
    /// Returns the IP location's language, in english.
    pub fn name(&self) -> (r: &String)
        ensures
            r@ == self@.name,
    {
        &self.name
    }

    /// Returns the IP location's native language name.
    pub fn native(&self) -> (r: &String)
        ensures
            r@ == self@.native,
    {
        &self.native
    }
}

} // verus!
