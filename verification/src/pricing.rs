use crate::errors::SaleError;
use vstd::prelude::*;

verus! {

/// Sum of the marginal prices of units `already + 1` through `already + count`
/// (1-based unit positions): what a wallet that already holds `already` units
/// pays for the next `count` units.
pub open spec fn sum_prices(prices: Seq<u128>, already: int, count: int) -> int
    decreases count,
{
    if count <= 0 {
        0
    } else {
        sum_prices(prices, already, count - 1) + prices[already + count - 1]
    }
}

/// Exact-match pricing for an explicit quantity: the batch is priced flat at
/// the marginal price of the final cumulative position `already + to_buy`,
/// and the payment must equal that price times the quantity exactly.
pub open spec fn spec_price_valid(
    prices: Seq<u128>,
    payment: int,
    already: int,
    to_buy: int,
) -> bool {
    let idx = already + to_buy;
    1 <= idx <= prices.len() && prices[idx - 1] * to_buy == payment
}

/// The payment lands exactly on the `u`-th cumulative marginal-price sum, and
/// `u` is the first unit count that reaches it.
pub open spec fn reconcile_ok(prices: Seq<u128>, already: int, payment: int, u: int) -> bool {
    &&& 1 <= u
    &&& already + u <= prices.len()
    &&& sum_prices(prices, already, u) == payment
    &&& forall|j: int| 1 <= j < u ==> sum_prices(prices, already, j) < payment
}

/// The payment falls strictly between two cumulative marginal-price sums:
/// some first unit count overshoots it without any earlier count hitting it.
pub open spec fn reconcile_exceeds(prices: Seq<u128>, already: int, payment: int) -> bool {
    exists|u: int|
        {
            &&& 1 <= u
            &&& already + u <= prices.len()
            &&& #[trigger] sum_prices(prices, already, u) > payment
            &&& forall|j: int| 1 <= j < u ==> sum_prices(prices, already, j) < payment
        }
}

/// The payment exceeds every cumulative sum the wallet can still reach:
/// either no units are left below the cap, or even buying all of them
/// costs less than the payment.
pub open spec fn reconcile_too_large(prices: Seq<u128>, already: int, payment: int) -> bool {
    already >= prices.len() || sum_prices(prices, already, prices.len() - already) < payment
}

/// Cumulative sums never decrease as the unit count grows.
pub proof fn lemma_sum_monotonic(prices: Seq<u128>, already: int, j: int, k: int)
    requires
        0 <= j <= k,
    ensures
        sum_prices(prices, already, j) <= sum_prices(prices, already, k),
    decreases k - j,
{
    if j < k {
        lemma_sum_monotonic(prices, already, j, k - 1);
    }
}

/// Law: at most one unit count reconciles a given payment exactly.
pub proof fn lemma_reconcile_ok_unique(
    prices: Seq<u128>,
    already: int,
    payment: int,
    u1: int,
    u2: int,
)
    requires
        reconcile_ok(prices, already, payment, u1),
        reconcile_ok(prices, already, payment, u2),
    ensures
        u1 == u2,
{
    if u1 < u2 {
        assert(sum_prices(prices, already, u1) < payment);
    }
    if u2 < u1 {
        assert(sum_prices(prices, already, u2) < payment);
    }
}

/// Law: the three reconciliation outcomes are mutually exclusive — an exact
/// hit rules out both failure modes.
pub proof fn lemma_reconcile_ok_excludes(prices: Seq<u128>, already: int, payment: int, u: int)
    requires
        reconcile_ok(prices, already, payment, u),
    ensures
        !reconcile_exceeds(prices, already, payment),
        !reconcile_too_large(prices, already, payment),
{
    lemma_sum_monotonic(prices, already, u, prices.len() - already);
    if reconcile_exceeds(prices, already, payment) {
        let u2 = choose|u2: int|
            {
                &&& 1 <= u2
                &&& already + u2 <= prices.len()
                &&& #[trigger] sum_prices(prices, already, u2) > payment
                &&& forall|j: int| 1 <= j < u2 ==> sum_prices(prices, already, j) < payment
            };
        if u2 < u {
            assert(sum_prices(prices, already, u2) < payment);
        } else if u < u2 {
            assert(sum_prices(prices, already, u) < payment);
        }
    }
}

/// An overshoot rules out running off the end of the schedule.
pub proof fn lemma_exceeds_excludes_too_large(prices: Seq<u128>, already: int, payment: int)
    requires
        reconcile_exceeds(prices, already, payment),
    ensures
        !reconcile_too_large(prices, already, payment),
{
    let u = choose|u: int|
        {
            &&& 1 <= u
            &&& already + u <= prices.len()
            &&& #[trigger] sum_prices(prices, already, u) > payment
            &&& forall|j: int| 1 <= j < u ==> sum_prices(prices, already, j) < payment
        };
    lemma_sum_monotonic(prices, already, u, prices.len() - already);
}

/// Payment-driven reconciliation: walk the marginal prices of the units the
/// wallet can still buy, accumulating their cost, until the payment is hit
/// exactly; the payment must land on a cumulative sum, never between two.
///
/// Returns the number of units the payment buys, `ExceedsPayment` if the
/// payment falls strictly between two cumulative sums, and `PaymentTooLarge`
/// if it exceeds every sum the wallet can still reach.
pub fn units_for_payment(payment: u128, already_bought: u64, prices: &Vec<u128>) -> (r: Result<
    u64,
    SaleError,
>)
    ensures
        r matches Ok(u) ==> reconcile_ok(prices@, already_bought as int, payment as int, u as int),
        (exists|u: int|
            #[trigger] reconcile_ok(prices@, already_bought as int, payment as int, u)) ==> r is Ok,
        (r == Err::<u64, SaleError>(SaleError::ExceedsPayment)) <==> reconcile_exceeds(
            prices@,
            already_bought as int,
            payment as int,
        ),
        (r == Err::<u64, SaleError>(SaleError::PaymentTooLarge)) <==> reconcile_too_large(
            prices@,
            already_bought as int,
            payment as int,
        ),
        r is Err ==> (r == Err::<u64, SaleError>(SaleError::ExceedsPayment) || r == Err::<
            u64,
            SaleError,
        >(SaleError::PaymentTooLarge)),
{
    let ghost p = prices@;
    let ghost abi = already_bought as int;
    let ghost pay = payment as int;
    let len: usize = prices.len();
    if already_bought >= len as u64 {
        proof {
            assert(!reconcile_exceeds(p, abi, pay)) by {
                if reconcile_exceeds(p, abi, pay) {
                    let u = choose|u: int|
                        {
                            &&& 1 <= u
                            &&& abi + u <= p.len()
                            &&& #[trigger] sum_prices(p, abi, u) > pay
                            &&& forall|j: int| 1 <= j < u ==> sum_prices(p, abi, j) < pay
                        };
                }
            }
            assert forall|u: int| !(#[trigger] reconcile_ok(p, abi, pay, u)) by {}
        }
        return Err(SaleError::PaymentTooLarge);
    }
    let ab: usize = already_bought as usize;
    let mut spend: u128 = 0;
    let mut i: usize = ab;
    while i < len
        invariant
            ab <= i <= len,
            len == p.len(),
            p == prices@,
            abi == ab as int,
            abi == already_bought as int,
            pay == payment as int,
            spend == sum_prices(p, abi, i as int - ab as int),
            forall|j: int| 1 <= j <= i as int - ab as int ==> sum_prices(p, abi, j) < pay,
        decreases len - i,
    {
        let price: u128 = prices[i];
        let ghost u = i as int - ab as int + 1;
        proof {
            assert(sum_prices(p, abi, u) == spend + price);
        }
        if price > u128::MAX - spend || spend + price > payment {
            proof {
                assert(sum_prices(p, abi, u) > pay);
                assert(reconcile_exceeds(p, abi, pay));
                lemma_exceeds_excludes_too_large(p, abi, pay);
                assert forall|u2: int| !(#[trigger] reconcile_ok(p, abi, pay, u2)) by {
                    if reconcile_ok(p, abi, pay, u2) {
                        lemma_reconcile_ok_excludes(p, abi, pay, u2);
                    }
                }
            }
            return Err(SaleError::ExceedsPayment);
        }
        spend = spend + price;
        if spend == payment {
            proof {
                assert(reconcile_ok(p, abi, pay, u));
                lemma_reconcile_ok_excludes(p, abi, pay, u);
            }
            return Ok((i - ab + 1) as u64);
        }
        i = i + 1;
    }
    proof {
        assert(reconcile_too_large(p, abi, pay));
        assert(!reconcile_exceeds(p, abi, pay)) by {
            if reconcile_exceeds(p, abi, pay) {
                let u = choose|u: int|
                    {
                        &&& 1 <= u
                        &&& abi + u <= p.len()
                        &&& #[trigger] sum_prices(p, abi, u) > pay
                        &&& forall|j: int| 1 <= j < u ==> sum_prices(p, abi, j) < pay
                    };
                assert(sum_prices(p, abi, u) < pay);
            }
        }
        assert forall|u: int| !(#[trigger] reconcile_ok(p, abi, pay, u)) by {
            if reconcile_ok(p, abi, pay, u) {
                assert(sum_prices(p, abi, u) < pay);
            }
        }
    }
    Err(SaleError::PaymentTooLarge)
}

} // verus!
