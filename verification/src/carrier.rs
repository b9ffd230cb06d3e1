use vstd::prelude::*;

verus! {

/// Mobile-carrier details for an address. Present on a lookup result only
/// when the service knows a carrier for the address.
#[derive(Clone, Debug)]
pub struct Carrier {
    pub name: String,
    pub mcc: String,
    pub mnc: String,
}

/// The mathematical value of a `Carrier`: its fields as character sequences.
pub struct CarrierV {
    pub name: Seq<char>,
    pub mcc: Seq<char>,
    pub mnc: Seq<char>,
}

impl View for Carrier {
    type V = CarrierV;

    open spec fn view(&self) -> CarrierV {
        CarrierV { name: self.name@, mcc: self.mcc@, mnc: self.mnc@ }
    }
}

impl Carrier {
    /// Returns the mobile carrier's name, if available.
    pub fn name(&self) -> (r: &String)
        ensures
            r@ == self@.name,
    {
        &self.name
    }

    /// Returns the mobile carrier's country code, if available.
    pub fn mcc(&self) -> (r: &String)
        ensures
            r@ == self@.mcc,
    {
        &self.mcc
    }

    /// Returns the mobile carrier's network code, if available.
    pub fn mnc(&self) -> (r: &String)
        ensures
            r@ == self@.mnc,
    {
        &self.mnc
    }
}

} // verus!
