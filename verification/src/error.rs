use vstd::prelude::*;

verus! {

/// Errors returned by the library's fallible operations.  Each variant
/// names one way a request can be rejected; the embedding turns them
/// into transaction-aborting failures.
#[derive(Clone, Debug, PartialEq)]
pub enum Error {
    /// An address was not written in lowercase.
    AddrNotLowercase { addr: String },
    /// A native denomination without the IBC prefix was not lowercase.
    DenomNotLowercase { denom: String },
    /// The declared native amount does not match the attached funds.
    NativeBalanceMismatch,
    /// Tax can only be deducted from a native-token asset.
    CannotDeductTax,
    /// A checked subtraction underflowed.
    Underflow,
    /// Serializing a token-transfer message failed.
    EncodeFailed,
    /// A balance or metadata query against the host failed.
    QueryFailed,
    /// The sender is not allowed to perform the operation.
    Unauthorized,
    /// A fee rate exceeds the allowed bound.
    InvalidFeeBps,
    /// A pair must be built from exactly two assets.
    InvalidAssetLength,
    /// No configuration is registered for the requested pool type.
    PairConfigNotFound,
    /// The requested pool type is disabled.
    PairConfigDisabled,
    /// A pair over the same assets is already registered.
    PairAlreadyExists,
    /// No pair is registered over the given assets.
    PairNotFound,
    /// There is no pending ownership proposal.
    ProposalNotFound,
    /// The pending ownership proposal has expired.
    ProposalExpired,
}

} // verus!
