use crate::errors::SaleError;
use vstd::prelude::*;

verus! {

broadcast use vstd::seq_lib::group_seq_properties;

/// An unordered membership set of participant identities.
///
/// Membership is a set: adding a present identity and removing an absent one
/// are both no-ops, so `add` and `remove` are idempotent.
#[derive(Debug)]
pub struct Whitelist {
    members: Vec<u64>,
}

impl View for Whitelist {
    type V = Set<u64>;

    closed spec fn view(&self) -> Set<u64> {
        Set::new(|a: u64| self.members@.contains(a))
    }
}

impl Whitelist {
    /// The members are stored without duplicates.
    pub closed spec fn wf(&self) -> bool {
        forall|i: int, j: int|
            0 <= i < j < self.members@.len() ==> self.members@[i] != self.members@[j]
    }

    /// A new whitelist has no members at all.
    pub fn new() -> (w: Whitelist)
        ensures
            w.wf(),
            w@ == Set::<u64>::empty(),
            forall|a: u64| !w@.contains(a),
    {
        let w = Whitelist { members: Vec::new() };
        proof {
            assert(w@ =~= Set::<u64>::empty());
        }
        w
    }

    /// Whether the identity is a member.
    pub fn contains(&self, item: u64) -> (r: bool)
        ensures
            r == self@.contains(item),
    {
        let n: usize = self.members.len();
        for i in 0..n
            invariant
                n == self.members.len(),
                forall|j: int| 0 <= j < i ==> self.members@[j] != item,
        {
            if self.members[i] == item {
                return true;
            }
        }
        false
    }

    /// Insert the identity; inserting a member again changes nothing.
    pub fn add(&mut self, item: u64)
        requires
            old(self).wf(),
        ensures
            final(self).wf(),
            final(self)@ == old(self)@.insert(item),
    {
        if !self.contains(item) {
            self.members.push(item);
        }
        proof {
            assert(self@ =~= old(self)@.insert(item));
        }
    }

    /// Remove the identity; removing a non-member changes nothing.
    pub fn remove(&mut self, item: u64)
        requires
            old(self).wf(),
        ensures
            final(self).wf(),
            final(self)@ == old(self)@.remove(item),
    {
        let found = self.index_of(item);
        match found {
            Some(i) => {
                self.members.remove(i);
                proof {
                    old(self).members@.remove_ensures(i as int);
                    assert forall|a: u64| self.members@.contains(a) implies old(
                        self,
                    ).members@.contains(a) && a != item by {
                        let k = choose|k: int|
                            0 <= k < self.members@.len() && self.members@[k] == a;
                        if k < i {
                            assert(old(self).members@[k] == a);
                        } else {
                            assert(old(self).members@[k + 1] == a);
                        }
                    }
                    assert forall|a: u64| old(self).members@.contains(a) && a != item implies
                        self.members@.contains(a) by {
                        let k = choose|k: int|
                            0 <= k < old(self).members@.len() && old(self).members@[k] == a;
                        if k < i {
                            assert(self.members@[k] == a);
                        } else {
                            assert(self.members@[k - 1] == a);
                        }
                    }
                    assert(self@ =~= old(self)@.remove(item));
                }
            },
            None => {
                proof {
                    assert(self@ =~= old(self)@.remove(item));
                }
            },
        }
    }

    /// Position of the identity in the member store, if present.
    fn index_of(&self, item: u64) -> (r: Option<usize>)
        ensures
            match r {
                Some(i) => i < self.members@.len() && self.members@[i as int] == item,
                None => !self.members@.contains(item),
            },
    {
        let n: usize = self.members.len();
        for i in 0..n
            invariant
                n == self.members.len(),
                forall|j: int| 0 <= j < i ==> self.members@[j] != item,
        {
            if self.members[i] == item {
                return Some(i);
            }
        }
        None
    }
}

/// Law: adding an identity twice leaves the membership exactly as after
/// adding it once.
pub proof fn lemma_add_idempotent(s: Set<u64>, item: u64)
    ensures
        s.insert(item).insert(item) == s.insert(item),
{
    assert(s.insert(item).insert(item) =~= s.insert(item));
}

/// Law: removing an identity that is not a member leaves the membership
/// unchanged.
pub proof fn lemma_remove_absent_noop(s: Set<u64>, item: u64)
    requires
        !s.contains(item),
    ensures
        s.remove(item) == s,
{
    assert(s.remove(item) =~= s);
}

/// The three-tier access-control interface: membership management restricted
/// to the operator, unrestricted membership reads, and the time-gated
/// admission question.
pub trait WhitelistModule: Sized {
    /// Internal consistency of the membership sets.
    spec fn wf(&self) -> bool;

    /// Whether `address` may buy at time `now`.
    fn has_access(&self, now: u64, address: u64) -> bool;

    /// Operator-only: add `item` to the tier-1 whitelist.  Idempotent.
    fn add_to_first_whitelist(&mut self, caller: u64, owner: u64, item: u64) -> Result<
        (),
        SaleError,
    >
        requires
            old(self).wf(),
    ;

    /// Operator-only: remove `item` from the tier-1 whitelist.  Removing an
    /// absent identity is a no-op.
    fn remove_from_first_whitelist(&mut self, caller: u64, owner: u64, item: u64) -> Result<
        (),
        SaleError,
    >
        requires
            old(self).wf(),
    ;

    /// Whether `item` is on the tier-1 whitelist.  Unrestricted read.
    fn check_contains_first(&self, item: u64) -> bool;

    /// Demand tier-1 membership: an error for an identity not on the list.
    fn require_contains_first(&self, item: u64) -> Result<(), SaleError>;

    /// Operator-only: add `item` to the tier-2 whitelist.  Idempotent.
    fn add_to_second_whitelist(&mut self, caller: u64, owner: u64, item: u64) -> Result<
        (),
        SaleError,
    >
        requires
            old(self).wf(),
    ;

    /// Operator-only: remove `item` from the tier-2 whitelist.  Removing an
    /// absent identity is a no-op.
    fn remove_from_second_whitelist(&mut self, caller: u64, owner: u64, item: u64) -> Result<
        (),
        SaleError,
    >
        requires
            old(self).wf(),
    ;

    /// Whether `item` is on the tier-2 whitelist.  Unrestricted read.
    fn check_contains_second(&self, item: u64) -> bool;

    /// Demand tier-2 membership: an error for an identity not on the list.
    fn require_contains_second(&self, item: u64) -> Result<(), SaleError>;
}

/// The access-control state: the three tier-opening timestamps and the two
/// whitelists.  Tier-1 (the "first" whitelist) opens no later than tier-2
/// (the "second"), which opens no later than the public sale.
#[derive(Debug)]
pub struct AccessControl {
    /// When anyone may buy.
    pub timestamp_public_sale: u64,
    /// When tier-2 members may start buying, at discounted prices.
    pub timestamp_second_whitelist: u64,
    /// When tier-1 members may start buying.
    pub timestamp_first_whitelist: u64,
    /// The tier-1 membership set.
    pub first_whitelist: Whitelist,
    /// The tier-2 membership set.
    pub second_whitelist: Whitelist,
}

impl AccessControl {
    /// The tier-opening rule: everyone once the public sale has begun, tier-2
    /// members once their window is open, tier-1 members once theirs is.
    /// The closing time is judged separately by the purchase engine, and the
    /// operator bypasses this check entirely.
    pub open spec fn spec_has_access(&self, now: u64, address: u64) -> bool {
        ||| now >= self.timestamp_public_sale
        ||| (now >= self.timestamp_second_whitelist && self.second_whitelist@.contains(address))
        ||| (now >= self.timestamp_first_whitelist && self.first_whitelist@.contains(address))
    }

    /// The three opening times agree with `other`'s.
    pub open spec fn timestamps_unchanged(&self, other: AccessControl) -> bool {
        &&& self.timestamp_public_sale == other.timestamp_public_sale
        &&& self.timestamp_second_whitelist == other.timestamp_second_whitelist
        &&& self.timestamp_first_whitelist == other.timestamp_first_whitelist
    }

    /// A fresh module with the given opening times and no members in either
    /// tier: an identity never added to a tier is not a member of it.
    pub fn new(
        timestamp_public_sale: u64,
        timestamp_second_whitelist: u64,
        timestamp_first_whitelist: u64,
    ) -> (m: AccessControl)
        ensures
            m.wf(),
            m.timestamp_public_sale == timestamp_public_sale,
            m.timestamp_second_whitelist == timestamp_second_whitelist,
            m.timestamp_first_whitelist == timestamp_first_whitelist,
            m.first_whitelist@ == Set::<u64>::empty(),
            m.second_whitelist@ == Set::<u64>::empty(),
            forall|a: u64| !m.first_whitelist@.contains(a) && !m.second_whitelist@.contains(a),
    {
        AccessControl {
            timestamp_public_sale,
            timestamp_second_whitelist,
            timestamp_first_whitelist,
            first_whitelist: Whitelist::new(),
            second_whitelist: Whitelist::new(),
        }
    }
}

impl WhitelistModule for AccessControl {
    open spec fn wf(&self) -> bool {
        self.first_whitelist.wf() && self.second_whitelist.wf()
    }

    fn has_access(&self, now: u64, address: u64) -> (r: bool)
        ensures
            r == self.spec_has_access(now, address),
    {
        if now >= self.timestamp_public_sale {
            return true;
        }
        if now >= self.timestamp_second_whitelist && self.second_whitelist.contains(address) {
            return true;
        }
        if now >= self.timestamp_first_whitelist && self.first_whitelist.contains(address) {
            return true;
        }
        false
    }

    fn add_to_first_whitelist(&mut self, caller: u64, owner: u64, item: u64) -> (r: Result<
        (),
        SaleError,
    >)
        ensures
            final(self).wf(),
            caller != owner ==> r == Err::<(), SaleError>(SaleError::Unauthorized) && *final(self)
                == *old(self),
            caller == owner ==> r == Ok::<(), SaleError>(()) && final(self).first_whitelist@ == old(
                self,
            ).first_whitelist@.insert(item) && final(self).second_whitelist == old(
                self,
            ).second_whitelist && final(self).timestamps_unchanged(*old(self)),
    {
        if caller != owner {
            return Err(SaleError::Unauthorized);
        }
        self.first_whitelist.add(item);
        Ok(())
    }

    fn remove_from_first_whitelist(&mut self, caller: u64, owner: u64, item: u64) -> (r: Result<
        (),
        SaleError,
    >)
        ensures
            final(self).wf(),
            caller != owner ==> r == Err::<(), SaleError>(SaleError::Unauthorized) && *final(self)
                == *old(self),
            caller == owner ==> r == Ok::<(), SaleError>(()) && final(self).first_whitelist@ == old(
                self,
            ).first_whitelist@.remove(item) && final(self).second_whitelist == old(
                self,
            ).second_whitelist && final(self).timestamps_unchanged(*old(self)),
    {
        if caller != owner {
            return Err(SaleError::Unauthorized);
        }
        self.first_whitelist.remove(item);
        Ok(())
    }

    fn check_contains_first(&self, item: u64) -> (r: bool)
        ensures
            r == self.first_whitelist@.contains(item),
    {
        self.first_whitelist.contains(item)
    }

    fn require_contains_first(&self, item: u64) -> (r: Result<(), SaleError>)
        ensures
            r == (if self.first_whitelist@.contains(item) {
                Ok::<(), SaleError>(())
            } else {
                Err::<(), SaleError>(SaleError::NotWhitelisted)
            }),
    {
        if self.first_whitelist.contains(item) {
            Ok(())
        } else {
            Err(SaleError::NotWhitelisted)
        }
    }

    fn add_to_second_whitelist(&mut self, caller: u64, owner: u64, item: u64) -> (r: Result<
        (),
        SaleError,
    >)
        ensures
            final(self).wf(),
            caller != owner ==> r == Err::<(), SaleError>(SaleError::Unauthorized) && *final(self)
                == *old(self),
            caller == owner ==> r == Ok::<(), SaleError>(()) && final(self).second_whitelist@
                == old(self).second_whitelist@.insert(item) && final(self).first_whitelist == old(
                self,
            ).first_whitelist && final(self).timestamps_unchanged(*old(self)),
    {
        if caller != owner {
            return Err(SaleError::Unauthorized);
        }
        self.second_whitelist.add(item);
        Ok(())
    }

    fn remove_from_second_whitelist(&mut self, caller: u64, owner: u64, item: u64) -> (r: Result<
        (),
        SaleError,
    >)
        ensures
            final(self).wf(),
            caller != owner ==> r == Err::<(), SaleError>(SaleError::Unauthorized) && *final(self)
                == *old(self),
            caller == owner ==> r == Ok::<(), SaleError>(()) && final(self).second_whitelist@
                == old(self).second_whitelist@.remove(item) && final(self).first_whitelist == old(
                self,
            ).first_whitelist && final(self).timestamps_unchanged(*old(self)),
    {
        if caller != owner {
            return Err(SaleError::Unauthorized);
        }
        self.second_whitelist.remove(item);
        Ok(())
    }

    fn check_contains_second(&self, item: u64) -> (r: bool)
        ensures
            r == self.second_whitelist@.contains(item),
    {
        self.second_whitelist.contains(item)
    }

    fn require_contains_second(&self, item: u64) -> (r: Result<(), SaleError>)
        ensures
            r == (if self.second_whitelist@.contains(item) {
                Ok::<(), SaleError>(())
            } else {
                Err::<(), SaleError>(SaleError::NotWhitelisted)
            }),
    {
        if self.second_whitelist.contains(item) {
            Ok(())
        } else {
            Err(SaleError::NotWhitelisted)
        }
    }
}

} // verus!
