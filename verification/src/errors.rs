use vstd::prelude::*;

verus! {

/// The two named conditions under which a claim is turned down.
#[derive(Clone, Copy, Debug, PartialEq, Eq, Structural)]
pub enum ErrorCode {
    /// The requester has already claimed this drop.
    ClaimedDrop,
    /// The drop is finite and nothing is left of it.
    MintLimitReached,
}

impl ErrorCode {
    /// The message that belongs to the condition.
    pub fn message(&self) -> (text: &'static str)
        ensures
            text@ == (match *self {
                ErrorCode::ClaimedDrop => "user has already claimed drop"@,
                ErrorCode::MintLimitReached => "mint limit reached."@,
            }),
    {
        match self {
            ErrorCode::ClaimedDrop => "user has already claimed drop",
            ErrorCode::MintLimitReached => "mint limit reached.",
        }
    }
}

} // verus!

verus! {

/// Why no address could be derived from a list of seeds.
#[derive(Clone, Copy, Debug, PartialEq, Eq, Structural)]
pub enum SeedsError {
    /// There are too many seeds, or one of them is too long.
    MaxSeedLengthExceeded,
    /// The seeds derive a point on the curve, which cannot be a derived address.
    InvalidSeeds,
    /// The owner is not allowed.
    IllegalOwner,
}

} // verus!

verus! {

/// Every way in which a unit of work can end without taking effect.
#[derive(Clone, Copy, Debug, PartialEq, Eq, Structural)]
pub enum Failure {
    /// One of the two named conditions of a claim.
    Code(ErrorCode),
    /// A registry turned a call down; its own code is passed on unchanged.
    Registry(u64),
    /// An account is not the one that the drop record names.
    ConstraintRaw,
    /// An address is not the one that its seeds derive.
    ConstraintSeeds,
    /// No address can be derived from the seeds.
    Seeds(SeedsError),
    /// A record already stands at the address that a new one was to take.
    AlreadyInUse,
    /// No drop record stands under the identity.
    NotInitialized,
    /// The step does not fit the stage that the unit of work is in.
    OutOfTurn,
}

} // verus!
