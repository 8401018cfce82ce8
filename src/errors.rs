use vstd::prelude::*;

verus! {

/// Every way an instruction of the engine can be rejected. Each is detected
/// before any balance or record is touched.
#[derive(Clone, Copy, Debug, PartialEq, Eq, Structural)]
pub enum IntraverseErrorCode {
    GenericError,
    /// A deposit, withdrawal or pairing named a pool that is not open.
    PoolIsClosed,
    /// A withdrawal asked for more claim tokens than the caller holds.
    LpBalanceInsufficient,
    /// A pool's claim-token supply is below its activation threshold.
    ActivationThresholdNotMet,
    /// The two pools of a competition have different owners.
    PoolAuthoritiesMismatch,
    /// A claim or a reset came before the competition was resolved.
    CompetitionIsOpen,
    /// The competition was already resolved.
    AlreadyResolved,
    /// A token account does not hold the amount that a transfer moves out of it.
    InsufficientFunds,
    /// A mint would push a supply past the largest `u64`.
    ArithmeticOverflow,
}

} // verus!
