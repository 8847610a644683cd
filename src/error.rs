use vstd::prelude::*;

verus! {

/// The rejections that the minting rules raise themselves.
#[derive(Clone, Copy, PartialEq, Eq, Structural, Debug)]
pub enum MintError {
    /// The caller lacks the needed authority, the payment recipient is not the
    /// administrator, or the resolved tier does not fit the stage, the supply
    /// or the caller's cap.
    NotAllowed,
    /// The stage is `Disabled`.
    NotActive,
    /// The stage holds a value outside the three legal ones.
    InvalidStage,
    /// The payer's balance is below the price.
    InsufficientFunds,
}

/// Every way a request can be refused: a rule of the minting program, or a
/// record condition that the host checks before the program runs.
#[derive(Clone, Copy, PartialEq, Eq, Structural, Debug)]
pub enum RequestError {
    Mint(MintError),
    /// A record that is to be created already exists.
    AccountInUse,
    /// A record that is to be read or removed does not exist.
    AccountNotInitialized,
    /// An allowlist entry is removed by someone other than its creator.
    ConstraintHasOne,
    /// A record belongs to another configuration, or the configuration is
    /// frozen.
    ConstraintRaw,
}

} // verus!
