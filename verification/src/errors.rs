use vstd::prelude::*;

verus! {

/// Everything a voting operation can fail with. Every failure leaves the
/// ledger exactly as it was: no record is created or changed, and no
/// notification is emitted.
#[derive(Clone, Copy, Debug, PartialEq, Eq, Structural)]
pub enum VoteError {
    /// The key is empty, or no account address can be derived from it.
    InvalidUrl,
    /// A record already stands at the address derived for this key.
    AddressCollision,
    /// No record stands at the address derived for this key.
    RecordNotFound,
    /// Checked arithmetic on a counter would leave its representable range.
    Overflow,
}

} // verus!
