use vstd::prelude::*;

verus! {

/// The local time zone at the looked-up location. The service sometimes sends
/// an empty string where a daylight-saving-time flag is expected, so that flag
/// is deliberately not modeled.
#[derive(Clone, Debug)]
pub struct TimeZone {
    pub name: String,
    pub abbr: String,
    pub offset: String,
}

/// The mathematical value of a `TimeZone`: its fields as character sequences.
pub struct TimeZoneV {
    pub name: Seq<char>,
    pub abbr: Seq<char>,
    pub offset: Seq<char>,
}

impl View for TimeZone {
    type V = TimeZoneV;

    open spec fn view(&self) -> TimeZoneV {
        TimeZoneV { name: self.name@, abbr: self.abbr@, offset: self.offset@ }
    }
}

impl TimeZone {
    /// Returns the time zone's name.
    pub fn name(&self) -> (r: &String)
        ensures
            r@ == self@.name,
    {
        &self.name
    }

    /// Returns the time zone's abbreviation, e.g., MST.
    pub fn abbr(&self) -> (r: &String)
        ensures
            r@ == self@.abbr,
    {
        &self.abbr
    }

    /// Returns UTC offset of the Timezone, e.g., "-0700".
    pub fn offset(&self) -> (r: &String)
        ensures
            r@ == self@.offset,
    {
        &self.offset
    }
}

} // verus!
