use vstd::prelude::*;

verus! {

/// Typed failure returned by every operation of the engine.
///
/// Every error aborts the triggering operation with zero partial mutation:
/// each transition checks all of its conditions before writing any state.
#[derive(Clone, Copy, Debug, PartialEq, Eq, Structural)]
pub enum CurveError {
    /// The self/market/supporter percentages of a deployment do not sum to 100.
    InvalidAllocation,
    /// A token name longer than the 32-byte limit.
    NameTooLong,
    /// A token symbol longer than the 10-byte limit.
    SymbolTooLong,
    /// A metadata URI longer than the 200-byte limit.
    UriTooLong,
    /// A malformed configuration blob.
    InvalidConfig,
    /// A distributor configuration with a zero drip amount, interval or day count.
    InvalidDistributorConfig,
    /// A planned total distribution larger than the supporter allocation.
    DistributionExceedsAllocation,
    /// The handle of a deployment is already registered.
    DuplicateHandle,
    /// The issuing agent has no record in the allow-list.
    AgentNotRegistered,
    /// The issuing agent is recorded but not allowed to deploy.
    AgentNotAllowed,
    /// The caller is not the registry authority.
    Unauthorized,
    /// The swap router has not been initialized.
    RouterNotInitialized,
    /// The curve is not in its active trading state.
    CurveNotActive,
    /// The creator token record has not been initialized.
    TokenNotInitialized,
    /// The one-time initial mint was already performed.
    AlreadyMinted,
    /// An intermediate product or a result does not fit its width, or a
    /// supply update would wrap around.
    ArithmeticOverflow,
    /// A buy would push the supply past its ceiling.
    CapacityExceeded,
    /// A payer balance or a custodial reserve too low to settle the trade.
    InsufficientFunds,
    /// A swap output below the caller-supplied minimum.
    Slippage,
}

} // verus!
