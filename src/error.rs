use vstd::prelude::*;

verus! {

/// An error with a human-readable message.
#[derive(Debug)]
pub struct GpxError {
    what: String,
}

impl GpxError {
    pub closed spec fn view(&self) -> Seq<char> {
        self.what@
    }

    pub fn new(msg: &str) -> (r: Self)
        ensures
            r@ == msg@,
    {
        Self { what: msg.to_string() }
    }

    /// The message this error carries.
    pub fn message(&self) -> (r: &str)
        ensures
            r@ == self@,
    {
        self.what.as_str()
    }
}

/// The ways building a profile can fail.
#[derive(Debug, Clone, Copy, PartialEq, Eq, Structural)]
pub enum ProfileError {
    /// The document does not hold exactly one track with a segment.
    Structure,
    /// A point lacks a value the profile needs.
    MissingData,
    /// A configuration value is out of range, such as a zero window size.
    InvalidParameter,
}

} // verus!
