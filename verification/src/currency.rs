use vstd::prelude::*;

verus! {

/// The local currency at the looked-up location.
#[derive(Clone, Debug)]
pub struct Currency {
    pub name: String,
    pub code: String,
    pub symbol: String,
    pub native: String,
    pub plural: String,
}

/// The mathematical value of a `Currency`: its fields as character sequences.
pub struct CurrencyV {
    pub name: Seq<char>,
    pub code: Seq<char>,
    pub symbol: Seq<char>,
    pub native: Seq<char>,
    pub plural: Seq<char>,
}

impl View for Currency {
    type V = CurrencyV;

    open spec fn view(&self) -> CurrencyV {
        CurrencyV {
            name: self.name@,
            code: self.code@,
            symbol: self.symbol@,
            native: self.native@,
            plural: self.plural@,
        }
    }
}

impl Currency {
    /// Returns the name of the currency.
    pub fn name(&self) -> (r: &String)
        ensures
            r@ == self@.name,
    {
        &self.name
    }

    /// Returns the ISO 4217 currency code.
    pub fn code(&self) -> (r: &String)
        ensures
            r@ == self@.code,
    {
        &self.code
    }

    /// Returns the currency's symbol.
    pub fn symbol(&self) -> (r: &String)
        ensures
            r@ == self@.symbol,
    {
        &self.symbol
    }

    /// Returns the native name of the currency.
    pub fn native(&self) -> (r: &String)
        ensures
            r@ == self@.native,
    {
        &self.native
    }

    /// Returns the plural version of the currency. For example, US dollars,
    /// Australian dollars, Euros.
    pub fn plural(&self) -> (r: &String)
        ensures
            r@ == self@.plural,
    {
        &self.plural
    }
}

} // verus!
