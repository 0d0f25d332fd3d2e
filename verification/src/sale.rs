use crate::errors::SaleError;
use crate::ledger::{seq_units, spec_record, PurchaseLedger};
use crate::pricing::{
    reconcile_exceeds, reconcile_ok, reconcile_too_large, spec_price_valid, units_for_payment,
};
use crate::token::TokenId;
use crate::whitelist::{AccessControl, WhitelistModule};
use vstd::prelude::*;

verus! {

/// A sale configuration is well formed when neither price schedule is empty,
/// both have exactly one marginal price per unit a wallet may buy, and the
/// tier-2 window does not open before the tier-1 window.
pub open spec fn spec_config_valid(
    max_per_wallet: u64,
    prices: Seq<u128>,
    reduced_prices: Seq<u128>,
    second_whitelist_delta: u64,
    first_whitelist_delta: u64,
) -> bool {
    &&& prices.len() > 0
    &&& reduced_prices.len() > 0
    &&& prices.len() == max_per_wallet as int
    &&& reduced_prices.len() == max_per_wallet as int
    &&& second_whitelist_delta <= first_whitelist_delta
}

/// The sale-engine interface: one-time configuration, the two purchase
/// protocols, the read views, and the operator's recovery endpoints.  The
/// clock and the external balances are handed in on each call; the engine
/// decides and reports, the caller performs the transfers.
pub trait PublicSaleMint: Sized {
    /// Internal consistency of the engine state.
    spec fn wf(&self) -> bool;

    /// Set up the sale once; a malformed configuration is `InvalidConfig`.
    fn init(
        max_per_wallet: u64,
        price_per_egg: Vec<u128>,
        reduced_price_per_egg: Vec<u128>,
        timestamp_public_sale: u64,
        second_whitelist_delta: u64,
        first_whitelist_delta: u64,
        token: TokenId,
        token_nonce: u64,
        sale_duration: u64,
    ) -> Result<Self, SaleError>
        requires
            first_whitelist_delta <= timestamp_public_sale,
            timestamp_public_sale + sale_duration <= u64::MAX,
    ;

    /// Operator-only validation of an inventory deposit.
    fn fill_egg(&self, caller: u64, owner: u64, payment_token: &TokenId, payment_nonce: u64)
        -> Result<(), SaleError>;

    /// Explicit-quantity purchase: the caller names the quantity and must pay
    /// the flat batch price exactly.
    fn buy(
        &mut self,
        now: u64,
        caller: u64,
        owner: u64,
        payment_token: &TokenId,
        payment_amount: u128,
        remaining_inventory: u128,
        to_buy: u64,
    ) -> Result<u64, SaleError>
        requires
            old(self).wf(),
    ;

    /// Payment-driven purchase: the payment must land exactly on a cumulative
    /// marginal-price sum, and buys that many units.
    fn buy_for_payment(
        &mut self,
        now: u64,
        caller: u64,
        owner: u64,
        payment_token: &TokenId,
        payment_amount: u128,
        remaining_inventory: u128,
    ) -> Result<u64, SaleError>
        requires
            old(self).wf(),
    ;

    /// Exact-match validity of an explicit-quantity purchase.
    fn is_price_valid(
        &self,
        payment_amount: u128,
        already_bought: u64,
        prices: &Vec<u128>,
        to_buy: u64,
    ) -> bool;

    /// Whether the sale has reached its closing time.
    fn is_sale_over(&self, now: u64) -> bool;

    /// The price schedule that applies to `address`.
    fn get_price_list(&self, address: u64) -> &Vec<u128>;

    /// Cumulative units bought by `address`; zero for a wallet that never
    /// bought.
    fn get_bought_amount(&self, address: u64) -> u64;

    /// Every wallet that bought, with its cumulative units, in the order the
    /// wallets first bought.
    fn get_all_buyers(&self) -> Vec<(u64, u64)>;

    /// Operator-only withdrawal of the settlement balance.
    fn claim_balance(&self, caller: u64, owner: u64, balance: u128) -> Result<u128, SaleError>;

    /// Operator-only withdrawal of the unsold inventory.
    fn claim_eggs(&self, caller: u64, owner: u64, balance: u128) -> Result<u128, SaleError>;
}

/// The sale engine's state: immutable configuration, the access-control
/// module and the per-wallet purchase ledger — everything the admission and
/// pricing decisions depend on besides the clock and the external balances.
#[derive(Debug)]
pub struct SaleContract {
    /// Tier-opening times and the two whitelists.
    pub whitelist: AccessControl,
    /// Cap on the cumulative units a single wallet may buy.
    pub max_per_wallet: u64,
    /// `price_per_egg[i]` is the marginal price of the `i+1`-th unit a
    /// wallet buys at full price.
    pub price_per_egg: Vec<u128>,
    /// The discounted schedule applied to tier-2 members, same shape.
    pub reduced_price_per_egg: Vec<u128>,
    /// The asset being sold.
    pub token_identifier: TokenId,
    /// The nonce of the asset being sold.
    pub token_nonce: u64,
    /// Per-wallet cumulative units bought.
    pub already_bought: PurchaseLedger,
    /// From this time on the sale is closed to everyone but the operator.
    pub timestamp_sale_closed: u64,
}

impl SaleContract {
    /// Cumulative units bought by `address`; zero for a wallet that never
    /// bought.
    pub open spec fn spec_bought_amount(&self, address: u64) -> u64 {
        seq_units(self.already_bought@, address)
    }

    /// The price schedule that applies to `address`: the discounted one for
    /// tier-2 members, the full one for everyone else.
    pub open spec fn spec_price_list(&self, address: u64) -> Seq<u128> {
        if self.whitelist.second_whitelist@.contains(address) {
            self.reduced_price_per_egg@
        } else {
            self.price_per_egg@
        }
    }

    /// The admission check shared by both purchase protocols, in the order
    /// the tests are made: the payment must be in the settlement asset; a
    /// non-operator caller finds the sale neither closed nor shut to their
    /// tier; and inventory must remain.  `None` admits the purchase.
    pub open spec fn spec_admission_error(
        &self,
        now: u64,
        caller: u64,
        owner: u64,
        payment_token: (bool, Seq<u8>),
        remaining_inventory: u128,
    ) -> Option<SaleError> {
        if !payment_token.0 {
            Some(SaleError::WrongPaymentAsset)
        } else if caller != owner && now >= self.timestamp_sale_closed {
            Some(SaleError::SaleClosed)
        } else if caller != owner && !self.whitelist.spec_has_access(now, caller) {
            Some(SaleError::SaleNotOpenForCaller)
        } else if remaining_inventory == 0 {
            Some(SaleError::SoldOut)
        } else {
            None
        }
    }

    /// The exact outcome of an explicit-quantity purchase: the admission
    /// error if one check fails, `InvalidQuantity` for a batch of zero or
    /// one that would pass the per-wallet cap, `AmountMismatch` unless the
    /// payment equals the flat batch price exactly, and otherwise the
    /// released quantity.
    pub open spec fn spec_buy_result(
        &self,
        now: u64,
        caller: u64,
        owner: u64,
        payment_token: (bool, Seq<u8>),
        payment_amount: u128,
        remaining_inventory: u128,
        to_buy: u64,
    ) -> Result<u64, SaleError> {
        match self.spec_admission_error(now, caller, owner, payment_token, remaining_inventory) {
            Some(e) => Err(e),
            None => {
                let already = self.spec_bought_amount(caller) as int;
                let prices = self.spec_price_list(caller);
                let idx = already + to_buy;
                if idx == 0 || idx > prices.len() {
                    Err(SaleError::InvalidQuantity)
                } else if !spec_price_valid(prices, payment_amount as int, already, to_buy as int) {
                    Err(SaleError::AmountMismatch)
                } else {
                    Ok(to_buy)
                }
            },
        }
    }

    /// Everything but the purchase ledger agrees with `other`.
    pub open spec fn config_unchanged(&self, other: SaleContract) -> bool {
        &&& self.whitelist == other.whitelist
        &&& self.max_per_wallet == other.max_per_wallet
        &&& self.price_per_egg == other.price_per_egg
        &&& self.reduced_price_per_egg == other.reduced_price_per_egg
        &&& self.token_identifier == other.token_identifier
        &&& self.token_nonce == other.token_nonce
        &&& self.timestamp_sale_closed == other.timestamp_sale_closed
    }
}

impl PublicSaleMint for SaleContract {
    /// Invariant established by `init` and preserved by every operation:
    /// the configuration is internally consistent, the tier windows open in
    /// order, and no ledger entry exceeds the per-wallet cap.
    open spec fn wf(&self) -> bool {
        &&& self.whitelist.wf()
        &&& self.already_bought.wf()
        &&& self.max_per_wallet >= 1
        &&& self.price_per_egg@.len() == self.max_per_wallet as int
        &&& self.reduced_price_per_egg@.len() == self.max_per_wallet as int
        &&& self.whitelist.timestamp_first_whitelist <= self.whitelist.timestamp_second_whitelist
        &&& self.whitelist.timestamp_second_whitelist <= self.whitelist.timestamp_public_sale
        &&& self.whitelist.timestamp_public_sale <= self.timestamp_sale_closed
        &&& forall|i: int|
            0 <= i < self.already_bought@.len() ==> (#[trigger] self.already_bought@[i]).1
                <= self.max_per_wallet
    }

    /// Set up the sale.  Checked in order: both schedules non-empty, both
    /// exactly as long as the per-wallet cap, and the tier-2 delta no larger
    /// than the tier-1 delta — any violation is `InvalidConfig`.  On success
    /// the configuration is persisted verbatim, with the derived opening
    /// times `t_tier2 = public - second_delta`, `t_tier1 = public -
    /// first_delta` and the closing time `public + duration`, so the tier
    /// windows open in order: tier-1, tier-2, public, closed.
    fn init(
        max_per_wallet: u64,
        price_per_egg: Vec<u128>,
        reduced_price_per_egg: Vec<u128>,
        timestamp_public_sale: u64,
        second_whitelist_delta: u64,
        first_whitelist_delta: u64,
        token: TokenId,
        token_nonce: u64,
        sale_duration: u64,
    ) -> (r: Result<SaleContract, SaleError>)
        ensures
            r is Ok <==> spec_config_valid(
                max_per_wallet,
                price_per_egg@,
                reduced_price_per_egg@,
                second_whitelist_delta,
                first_whitelist_delta,
            ),
            r is Err ==> r == Err::<SaleContract, SaleError>(SaleError::InvalidConfig),
            r matches Ok(s) ==> {
                &&& s.wf()
                &&& s.max_per_wallet == max_per_wallet
                &&& s.price_per_egg@ == price_per_egg@
                &&& s.reduced_price_per_egg@ == reduced_price_per_egg@
                &&& s.whitelist.timestamp_public_sale == timestamp_public_sale
                &&& s.whitelist.timestamp_second_whitelist == timestamp_public_sale
                    - second_whitelist_delta
                &&& s.whitelist.timestamp_first_whitelist == timestamp_public_sale
                    - first_whitelist_delta
                &&& s.token_identifier@ == token@
                &&& s.token_nonce == token_nonce
                &&& s.timestamp_sale_closed == timestamp_public_sale + sale_duration
                &&& s.whitelist.first_whitelist@ == Set::<u64>::empty()
                &&& s.whitelist.second_whitelist@ == Set::<u64>::empty()
                &&& s.already_bought@ == Seq::<(u64, u64)>::empty()
                &&& s.whitelist.timestamp_first_whitelist
                    <= s.whitelist.timestamp_second_whitelist
                    <= s.whitelist.timestamp_public_sale <= s.timestamp_sale_closed
            },
    {
        if price_per_egg.len() == 0 {
            return Err(SaleError::InvalidConfig);
        }
        if reduced_price_per_egg.len() == 0 {
            return Err(SaleError::InvalidConfig);
        }
        if price_per_egg.len() as u64 != max_per_wallet {
            return Err(SaleError::InvalidConfig);
        }
        if reduced_price_per_egg.len() as u64 != max_per_wallet {
            return Err(SaleError::InvalidConfig);
        }
        if second_whitelist_delta > first_whitelist_delta {
            return Err(SaleError::InvalidConfig);
        }
        let whitelist = AccessControl::new(
            timestamp_public_sale,
            timestamp_public_sale - second_whitelist_delta,
            timestamp_public_sale - first_whitelist_delta,
        );
        Ok(
            SaleContract {
                whitelist,
                max_per_wallet,
                price_per_egg,
                reduced_price_per_egg,
                token_identifier: token,
                token_nonce,
                already_bought: PurchaseLedger::new(),
                timestamp_sale_closed: timestamp_public_sale + sale_duration,
            },
        )
    }

    /// Operator-only validation of an inventory deposit: the transferred
    /// asset and nonce must be exactly the sale asset.  The engine holds no
    /// inventory itself, so a valid deposit changes nothing here.
    fn fill_egg(
        &self,
        caller: u64,
        owner: u64,
        payment_token: &TokenId,
        payment_nonce: u64,
    ) -> (r: Result<(), SaleError>)
        ensures
            r == (if caller != owner {
                Err::<(), SaleError>(SaleError::Unauthorized)
            } else if payment_token@ != self.token_identifier@ {
                Err::<(), SaleError>(SaleError::WrongPaymentAsset)
            } else if payment_nonce != self.token_nonce {
                Err::<(), SaleError>(SaleError::WrongPaymentAsset)
            } else {
                Ok::<(), SaleError>(())
            }),
    {
        if caller != owner {
            return Err(SaleError::Unauthorized);
        }
        if !self.token_identifier.same_asset(payment_token) {
            return Err(SaleError::WrongPaymentAsset);
        }
        if payment_nonce != self.token_nonce {
            return Err(SaleError::WrongPaymentAsset);
        }
        Ok(())
    }

    /// Explicit-quantity purchase.  The caller names the quantity and must
    /// pay the flat batch price exactly; on success the quantity is released
    /// and the caller's ledger entry grows by exactly that quantity, staying
    /// within the per-wallet cap.  On any error nothing changes.
    fn buy(
        &mut self,
        now: u64,
        caller: u64,
        owner: u64,
        payment_token: &TokenId,
        payment_amount: u128,
        remaining_inventory: u128,
        to_buy: u64,
    ) -> (r: Result<u64, SaleError>)
        ensures
            final(self).wf(),
            r == old(self).spec_buy_result(
                now,
                caller,
                owner,
                payment_token@,
                payment_amount,
                remaining_inventory,
                to_buy,
            ),
            r is Err ==> *final(self) == *old(self),
            r matches Ok(u) ==> {
                &&& u == to_buy
                &&& final(self).already_bought@ == spec_record(
                    old(self).already_bought@,
                    caller,
                    (old(self).spec_bought_amount(caller) + to_buy) as u64,
                )
                &&& final(self).spec_bought_amount(caller) == old(self).spec_bought_amount(caller)
                    + u
                &&& final(self).spec_bought_amount(caller) <= old(self).max_per_wallet
                &&& forall|b: u64|
                    b != caller ==> final(self).spec_bought_amount(b) == old(
                        self,
                    ).spec_bought_amount(b)
                &&& final(self).config_unchanged(*old(self))
            },
    {
        if !payment_token.is_native() {
            return Err(SaleError::WrongPaymentAsset);
        }
        if caller != owner {
            if self.is_sale_over(now) {
                return Err(SaleError::SaleClosed);
            }
            if !self.whitelist.has_access(now, caller) {
                return Err(SaleError::SaleNotOpenForCaller);
            }
        }
        if remaining_inventory == 0 {
            return Err(SaleError::SoldOut);
        }
        let already: u64 = self.get_bought_amount(caller);
        let idx: u128 = already as u128 + to_buy as u128;
        let valid: bool;
        let plen: usize;
        {
            let prices = self.get_price_list(caller);
            plen = prices.len();
            valid = self.is_price_valid(payment_amount, already, prices, to_buy);
        }
        if idx == 0 || idx > plen as u128 {
            return Err(SaleError::InvalidQuantity);
        }
        if !valid {
            return Err(SaleError::AmountMismatch);
        }
        let new_units: u64 = already + to_buy;
        self.already_bought.record(caller, new_units);
        Ok(to_buy)
    }

    /// Payment-driven purchase.  The caller names no quantity: the payment
    /// must land exactly on a cumulative marginal-price sum of the caller's
    /// schedule, and buys that many units.  On success the caller's ledger
    /// entry grows by exactly the released quantity, staying within the
    /// per-wallet cap.  On any error nothing changes.
    fn buy_for_payment(
        &mut self,
        now: u64,
        caller: u64,
        owner: u64,
        payment_token: &TokenId,
        payment_amount: u128,
        remaining_inventory: u128,
    ) -> (r: Result<u64, SaleError>)
        ensures
            final(self).wf(),
            old(self).spec_admission_error(now, caller, owner, payment_token@, remaining_inventory)
                matches Some(e) ==> r == Err::<u64, SaleError>(e),
            old(self).spec_admission_error(now, caller, owner, payment_token@, remaining_inventory)
                is None ==> {
                &&& (r matches Ok(u) ==> reconcile_ok(
                    old(self).spec_price_list(caller),
                    old(self).spec_bought_amount(caller) as int,
                    payment_amount as int,
                    u as int,
                ))
                &&& ((exists|u: int|
                    #[trigger] reconcile_ok(
                        old(self).spec_price_list(caller),
                        old(self).spec_bought_amount(caller) as int,
                        payment_amount as int,
                        u,
                    )) ==> r is Ok)
                &&& ((r == Err::<u64, SaleError>(SaleError::ExceedsPayment)) <==> reconcile_exceeds(
                    old(self).spec_price_list(caller),
                    old(self).spec_bought_amount(caller) as int,
                    payment_amount as int,
                ))
                &&& ((r == Err::<u64, SaleError>(SaleError::PaymentTooLarge))
                    <==> reconcile_too_large(
                    old(self).spec_price_list(caller),
                    old(self).spec_bought_amount(caller) as int,
                    payment_amount as int,
                ))
                &&& (r is Err ==> (r == Err::<u64, SaleError>(SaleError::ExceedsPayment) || r
                    == Err::<u64, SaleError>(SaleError::PaymentTooLarge)))
            },
            r is Err ==> *final(self) == *old(self),
            r matches Ok(u) ==> {
                &&& 1 <= u
                &&& final(self).already_bought@ == spec_record(
                    old(self).already_bought@,
                    caller,
                    (old(self).spec_bought_amount(caller) + u) as u64,
                )
                &&& final(self).spec_bought_amount(caller) == old(self).spec_bought_amount(caller)
                    + u
                &&& final(self).spec_bought_amount(caller) <= old(self).max_per_wallet
                &&& forall|b: u64|
                    b != caller ==> final(self).spec_bought_amount(b) == old(
                        self,
                    ).spec_bought_amount(b)
                &&& final(self).config_unchanged(*old(self))
            },
    {
        if !payment_token.is_native() {
            return Err(SaleError::WrongPaymentAsset);
        }
        if caller != owner {
            if self.is_sale_over(now) {
                return Err(SaleError::SaleClosed);
            }
            if !self.whitelist.has_access(now, caller) {
                return Err(SaleError::SaleNotOpenForCaller);
            }
        }
        if remaining_inventory == 0 {
            return Err(SaleError::SoldOut);
        }
        let already: u64 = self.get_bought_amount(caller);
        let bought: Result<u64, SaleError>;
        {
            let prices = self.get_price_list(caller);
            bought = units_for_payment(payment_amount, already, prices);
        }
        match bought {
            Ok(units) => {
                let new_units: u64 = already + units;
                self.already_bought.record(caller, new_units);
                Ok(units)
            },
            Err(e) => Err(e),
        }
    }

    /// Exact-match validity of an explicit-quantity purchase: the final
    /// cumulative position `already_bought + to_buy` must lie within the
    /// schedule, and the payment must equal that position's marginal price
    /// times the quantity exactly.
    fn is_price_valid(
        &self,
        payment_amount: u128,
        already_bought: u64,
        prices: &Vec<u128>,
        to_buy: u64,
    ) -> (r: bool)
        ensures
            r == spec_price_valid(
                prices@,
                payment_amount as int,
                already_bought as int,
                to_buy as int,
            ),
    {
        let idx: u128 = already_bought as u128 + to_buy as u128;
        if idx == 0 || idx > prices.len() as u128 {
            return false;
        }
        let price: u128 = prices[(idx - 1) as usize];
        match price.checked_mul(to_buy as u128) {
            Some(total) => total == payment_amount,
            None => false,
        }
    }

    /// Whether the sale has reached its closing time.
    fn is_sale_over(&self, now: u64) -> (r: bool)
        ensures
            r == (now >= self.timestamp_sale_closed),
    {
        now >= self.timestamp_sale_closed
    }

    /// The price schedule that applies to `address`.
    fn get_price_list(&self, address: u64) -> (p: &Vec<u128>)
        ensures
            p@ == self.spec_price_list(address),
    {
        if self.whitelist.check_contains_second(address) {
            &self.reduced_price_per_egg
        } else {
            &self.price_per_egg
        }
    }

    /// Cumulative units bought by `address`; zero for a wallet that never
    /// bought.
    fn get_bought_amount(&self, address: u64) -> (r: u64)
        ensures
            r == self.spec_bought_amount(address),
    {
        self.already_bought.get(address)
    }

    /// Every wallet that bought, with its cumulative units, in the order the
    /// wallets first bought.
    fn get_all_buyers(&self) -> (r: Vec<(u64, u64)>)
        ensures
            r@ == self.already_bought@,
    {
        self.already_bought.snapshot()
    }

    /// Operator-only withdrawal of the settlement balance: the whole balance
    /// is released to the operator, and claiming an empty balance fails.
    fn claim_balance(&self, caller: u64, owner: u64, balance: u128) -> (r: Result<u128, SaleError>)
        ensures
            r == (if caller != owner {
                Err::<u128, SaleError>(SaleError::Unauthorized)
            } else if balance == 0 {
                Err::<u128, SaleError>(SaleError::NothingToClaim)
            } else {
                Ok::<u128, SaleError>(balance)
            }),
    {
        if caller != owner {
            return Err(SaleError::Unauthorized);
        }
        if balance == 0 {
            return Err(SaleError::NothingToClaim);
        }
        Ok(balance)
    }

    /// Operator-only withdrawal of the unsold inventory: the whole remaining
    /// sale-asset balance is released to the operator, and claiming an empty
    /// balance fails.
    fn claim_eggs(&self, caller: u64, owner: u64, balance: u128) -> (r: Result<u128, SaleError>)
        ensures
            r == (if caller != owner {
                Err::<u128, SaleError>(SaleError::Unauthorized)
            } else if balance == 0 {
                Err::<u128, SaleError>(SaleError::NothingToClaim)
            } else {
                Ok::<u128, SaleError>(balance)
            }),
    {
        if caller != owner {
            return Err(SaleError::Unauthorized);
        }
        if balance == 0 {
            return Err(SaleError::NothingToClaim);
        }
        Ok(balance)
    }
}

/// Law: at or after the closing time, a purchase by anyone but the operator
/// is refused as closed, whatever the whitelists hold and whatever is paid.
pub proof fn lemma_closed_sale_rejects_buyers(
    s: SaleContract,
    now: u64,
    caller: u64,
    owner: u64,
    payment_token: (bool, Seq<u8>),
    payment_amount: u128,
    remaining_inventory: u128,
    to_buy: u64,
)
    requires
        payment_token.0,
        caller != owner,
        now >= s.timestamp_sale_closed,
    ensures
        s.spec_admission_error(now, caller, owner, payment_token, remaining_inventory) == Some(
            SaleError::SaleClosed,
        ),
        s.spec_buy_result(
            now,
            caller,
            owner,
            payment_token,
            payment_amount,
            remaining_inventory,
            to_buy,
        ) == Err::<u64, SaleError>(SaleError::SaleClosed),
{
}

/// Law: for an admitted purchase whose batch lies within the cap, any
/// payment other than exactly the flat batch price is refused as a mismatch.
pub proof fn lemma_inexact_payment_rejected(
    s: SaleContract,
    now: u64,
    caller: u64,
    owner: u64,
    payment_token: (bool, Seq<u8>),
    payment_amount: u128,
    remaining_inventory: u128,
    to_buy: u64,
)
    requires
        s.spec_admission_error(now, caller, owner, payment_token, remaining_inventory) is None,
        1 <= s.spec_bought_amount(caller) + to_buy <= s.spec_price_list(caller).len(),
        s.spec_price_list(caller)[s.spec_bought_amount(caller) + to_buy - 1] * to_buy
            != payment_amount,
    ensures
        s.spec_buy_result(
            now,
            caller,
            owner,
            payment_token,
            payment_amount,
            remaining_inventory,
            to_buy,
        ) == Err::<u64, SaleError>(SaleError::AmountMismatch),
{
}

/// Law: a well-formed engine never records more than the per-wallet cap for
/// any wallet.
pub proof fn lemma_bought_within_cap(s: SaleContract, address: u64)
    requires
        s.wf(),
    ensures
        s.spec_bought_amount(address) <= s.max_per_wallet,
{
    crate::ledger::lemma_units_bounded(s.already_bought@, s.max_per_wallet, address);
}

} // verus!
