use vstd::prelude::*;

verus! {

/// Risk signals the service reports for an address. The aggregates
/// `is_anonymous` and `is_threat` are precomputed upstream, not derived here.
#[derive(Clone, Copy, Debug, PartialEq, Eq, Structural)]
pub struct Threat {
    pub is_tor: bool,
    pub is_proxy: bool,
    pub is_anonymous: bool,
    pub is_known_attacker: bool,
    pub is_known_abuser: bool,
    pub is_threat: bool,
    pub is_bogon: bool,
}

impl Threat {
    /// Returns true if the IP address is a known Tor exit node or relay.
    pub fn is_tor(&self) -> (r: bool)
        ensures
            r == self.is_tor,
    {
        self.is_tor
    }

    /// Returns true if the IP is a known proxy of any type.
    pub fn is_proxy(&self) -> (r: bool)
        ensures
            r == self.is_proxy,
    {
        self.is_proxy
    }

    /// Returns true if is_tor or is_proxy is true.
    pub fn is_anonymous(&self) -> (r: bool)
        ensures
            r == self.is_anonymous,
    {
        self.is_anonymous
    }

    /// Returns true if the IP is a known (reported) source of malicious
    /// activity.
    pub fn is_known_attacker(&self) -> (r: bool)
        ensures
            r == self.is_known_attacker,
    {
        self.is_known_attacker
    }

    /// Returns true if the IP is a known (reported) source of abuse.
    pub fn is_known_abuser(&self) -> (r: bool)
        ensures
            r == self.is_known_abuser,
    {
        self.is_known_abuser
    }

    /// Returns true if is_known_abuser or is_known_attacker is true.
    pub fn is_threat(&self) -> (r: bool)
        ensures
            r == self.is_threat,
    {
        self.is_threat
    }

    /// Returns true if the ip address is a Bogon, i.e., an unassigned,
    /// unaddressable IP address.
    pub fn is_bogon(&self) -> (r: bool)
        ensures
            r == self.is_bogon,
    {
        self.is_bogon
    }
}

} // verus!
