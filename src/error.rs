use vstd::prelude::*;

verus! {

/// Why a transition was refused.
#[derive(Debug, Clone, Copy, PartialEq, Eq, Structural)]
pub enum Error {
    /// The host reported that a requested cell or field index does not exist.
    IndexOutOfBound,
    /// The host reported that a requested field is absent.
    ItemMissing,
    /// The host reported a buffer shorter than the data it had to hold.
    LengthNotEnough,
    /// A balance-bearing cell does not hold exactly sixteen bytes of data.
    Encoding,
    /// The outputs carry more tokens than the inputs.
    Amount,
    /// The amounts of one group add up to more than a 128-bit integer holds.
    Overflow,
}

/// The numeric code that the host reports when a script fails with `e`.
pub open spec fn spec_code(e: Error) -> i8 {
    match e {
        Error::IndexOutOfBound => 1,
        Error::ItemMissing => 2,
        Error::LengthNotEnough => 3,
        Error::Encoding => 4,
        Error::Amount => 5,
        Error::Overflow => 6,
    }
}

impl Error {
    /// The script's exit code for this failure: 1 to 6, in declaration order.
    pub fn code(&self) -> (r: i8)
        ensures
            r == spec_code(*self),
            1 <= r <= 6,
    {
        match self {
            Error::IndexOutOfBound => 1,
            Error::ItemMissing => 2,
            Error::LengthNotEnough => 3,
            Error::Encoding => 4,
            Error::Amount => 5,
            Error::Overflow => 6,
        }
    }
}

} // verus!
