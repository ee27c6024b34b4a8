use vstd::prelude::*;

verus! {

/// Every way an operation can be rejected. A rejected operation signals
/// exactly one of these and leaves every record as it was.
#[derive(Clone, Copy, Debug, PartialEq, Eq, Structural)]
pub enum BitDSMError {
    /// The registry was asked for with a zero minimum stake weight.
    InvalidStakeWeight,
    /// An application name was empty.
    InvalidAppName,
    /// An application name was longer than the bound.
    AppNameTooLong,
    /// A Bitcoin public key string was not 66 hexadecimal digits.
    InvalidBtcKey,
    /// A deposit amount was zero.
    InvalidAmount,
    /// A deposit was attempted on a deactivated pod.
    InactivePod,
    /// A balance update would exceed the largest representable balance.
    Overflow,
    /// The signer is not the recorded authority of the record.
    Unauthorized,
    /// The supplied account does not match the address derived from the
    /// claimed owner and the stored key prefix.
    AddressMismatch,
}

} // verus!
