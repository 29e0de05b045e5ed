use vstd::prelude::*;

verus! {

/// Every failure the arbitrage pipeline can report.
///
/// The first six are recovered locally: the observed transaction is skipped or
/// the opportunity is abandoned. The execution-stage failures are logged and
/// abandoned, never retried. `FeedSubscriptionError` alone is fatal to the
/// listener.
#[derive(Clone, Copy, Debug, PartialEq, Eq, Structural)]
pub enum ArbError {
    /// The observed call data does not match the expected swap call.
    DecodeError,
    /// The venue's pair registry returned the zero address for the pair.
    PoolNotFound,
    /// A pool reported a zero reserve on either side.
    InsufficientLiquidity,
    /// A trade simulation was asked for with a zero reserve.
    ZeroReserves,
    /// A trade simulation was asked for with a zero input amount.
    ZeroInput,
    /// A fee numerator outside 1..=1000 (parts per thousand kept by the trade).
    InvalidFeeRate,
    /// A checked arithmetic step would overflow.
    ArithmeticError,
    /// The node could not estimate gas for the counter-trade.
    GasEstimationError,
    /// The signer failed to sign the populated transaction.
    SigningError,
    /// The node rejected the raw transaction on submission.
    BroadcastError,
    /// The pending-transaction feed could not be established.
    FeedSubscriptionError,
}

} // verus!
