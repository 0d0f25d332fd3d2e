use vstd::prelude::*;

verus! {

/// Every way a sale operation can be refused.
///
/// All errors are synchronous rejections: a failed call leaves the engine
/// state exactly as it was, and the same inputs will fail the same way again.
#[derive(Clone, Copy, Debug, PartialEq, Eq, Structural)]
pub enum SaleError {
    /// Malformed initialization: an empty price schedule, a schedule whose
    /// length differs from the per-wallet cap, or tier windows that would
    /// open in the wrong order.
    InvalidConfig,
    /// A caller other than the operator attempted a restricted operation.
    Unauthorized,
    /// A membership check was required for an identity that is not listed.
    NotWhitelisted,
    /// The payment (or deposit) was not made in the designated asset.
    WrongPaymentAsset,
    /// The sale has reached its closing time.
    SaleClosed,
    /// The sale is not yet open for this caller's access tier.
    SaleNotOpenForCaller,
    /// No sellable units remain in inventory.
    SoldOut,
    /// A requested quantity of zero, or one that would exceed the
    /// per-wallet cap.
    InvalidQuantity,
    /// The payment does not equal the unit price times the requested
    /// quantity exactly.
    AmountMismatch,
    /// The payment falls strictly between two cumulative marginal-price
    /// sums: too much for one unit count, too little for the next.
    ExceedsPayment,
    /// The payment exceeds every cumulative marginal-price sum the wallet
    /// could still reach.
    PaymentTooLarge,
    /// A withdrawal was requested while the respective balance is zero.
    NothingToClaim,
}

} // verus!
