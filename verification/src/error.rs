use vstd::prelude::*;

verus! {

/// The single failure kind of the library: every configuration, transport,
/// status or decode failure collapses into one message string.
#[derive(Clone, Debug)]
pub struct IpDataError {
    pub message: String,
}

impl IpDataError {
    /// Builds an error carrying the given message.
    pub fn new(message: &str) -> (r: IpDataError)
        ensures
            r.message@ == message@,
    {
        IpDataError { message: message.to_owned() }
    }

    /// The human-readable description of the failure.
    pub fn message(&self) -> (r: &String)
        ensures
            r@ == self.message@,
    {
        &self.message
    }
}

} // verus!
