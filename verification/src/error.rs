use vstd::prelude::*;

verus! {

/// Why a rendering request was turned down.
#[derive(Debug, Clone, Copy, PartialEq, Eq, Structural)]
pub enum Error {
    /// The requested width or height is zero.
    InvalidDimension,
    /// The gamma is zero, negative, infinite or not a number.
    InvalidGamma,
}

impl Error {
    /// A one-line description fit for a terminal.
    pub fn description(&self) -> (text: &'static str)
        ensures
            *self == Error::InvalidDimension ==> text@ == "width and height must be at least 1"@,
            *self == Error::InvalidGamma ==> text@ == "gamma must be a finite number above zero"@,
    {
        match self {
            Error::InvalidDimension => "width and height must be at least 1",
            Error::InvalidGamma => "gamma must be a finite number above zero",
        }
    }
}

} // verus!
