use vstd::pervasive::VecAdditionalExecFns;
use vstd::prelude::*;

verus! {

broadcast use vstd::seq_lib::group_seq_properties;

/// Cumulative units bought by `a` according to the entry sequence: the value
/// of the first entry keyed by `a`, and `0` if no entry carries that key.
pub open spec fn seq_units(s: Seq<(u64, u64)>, a: u64) -> u64
    decreases s.len(),
{
    if s.len() == 0 {
        0
    } else if s[0].0 == a {
        s[0].1
    } else {
        seq_units(s.drop_first(), a)
    }
}

/// Whether some entry carries the key `a`.
pub open spec fn seq_has_key(s: Seq<(u64, u64)>, a: u64) -> bool {
    exists|i: int| 0 <= i < s.len() && (#[trigger] s[i]).0 == a
}

/// Entry keys appear at most once.
pub open spec fn unique_keys(s: Seq<(u64, u64)>) -> bool {
    forall|i: int, j: int| 0 <= i < j < s.len() ==> (#[trigger] s[i]).0 != (#[trigger] s[j]).0
}

/// The entry sequence after setting `a`'s cumulative units to `units`:
/// an existing entry is overwritten in place, a new key is appended, so
/// insertion order is preserved.
pub open spec fn spec_record(s: Seq<(u64, u64)>, a: u64, units: u64) -> Seq<(u64, u64)> {
    if seq_has_key(s, a) {
        s.update(choose|i: int| 0 <= i < s.len() && (#[trigger] s[i]).0 == a, (a, units))
    } else {
        s.push((a, units))
    }
}

/// The first entry keyed by `a` decides `seq_units`.
proof fn lemma_units_at_index(s: Seq<(u64, u64)>, a: u64, i: int)
    requires
        0 <= i < s.len(),
        s[i].0 == a,
        forall|j: int| 0 <= j < i ==> (#[trigger] s[j]).0 != a,
    ensures
        seq_units(s, a) == s[i].1,
    decreases i,
{
    if i > 0 {
        lemma_units_at_index(s.drop_first(), a, i - 1);
    }
}

/// Without an entry keyed by `a`, `seq_units` is zero.
proof fn lemma_units_absent(s: Seq<(u64, u64)>, a: u64)
    requires
        forall|j: int| 0 <= j < s.len() ==> (#[trigger] s[j]).0 != a,
    ensures
        seq_units(s, a) == 0,
    decreases s.len(),
{
    if s.len() > 0 {
        lemma_units_absent(s.drop_first(), a);
    }
}

/// Overwriting an entry in place leaves every other key's units unchanged.
proof fn lemma_units_update_other(s: Seq<(u64, u64)>, i: int, e: (u64, u64), b: u64)
    requires
        0 <= i < s.len(),
        s[i].0 == e.0,
        b != e.0,
    ensures
        seq_units(s.update(i, e), b) == seq_units(s, b),
    decreases s.len(),
{
    let t = s.update(i, e);
    if i == 0 {
        assert(t.drop_first() =~= s.drop_first());
    } else {
        if s[0].0 != b {
            assert(t.drop_first() =~= s.drop_first().update(i - 1, e));
            lemma_units_update_other(s.drop_first(), i - 1, e, b);
        }
    }
}

/// Appending an entry leaves every other key's units unchanged.
proof fn lemma_units_push_other(s: Seq<(u64, u64)>, e: (u64, u64), b: u64)
    requires
        b != e.0,
    ensures
        seq_units(s.push(e), b) == seq_units(s, b),
    decreases s.len(),
{
    let t = s.push(e);
    if s.len() == 0 {
        assert(t.drop_first() =~= Seq::<(u64, u64)>::empty());
    } else {
        if s[0].0 != b {
            assert(t.drop_first() =~= s.drop_first().push(e));
            lemma_units_push_other(s.drop_first(), e, b);
        }
    }
}

/// A cap on every entry's units caps `seq_units` for every key.
pub proof fn lemma_units_bounded(s: Seq<(u64, u64)>, cap: u64, a: u64)
    requires
        forall|i: int| 0 <= i < s.len() ==> (#[trigger] s[i]).1 <= cap,
    ensures
        seq_units(s, a) <= cap,
    decreases s.len(),
{
    if s.len() > 0 && s[0].0 != a {
        lemma_units_bounded(s.drop_first(), cap, a);
    }
}

/// The per-wallet purchase ledger: for each participant identity, the
/// cumulative number of units that wallet has bought, kept in the order in
/// which wallets first bought.
#[derive(Debug)]
pub struct PurchaseLedger {
    entries: Vec<(u64, u64)>,
}

impl View for PurchaseLedger {
    type V = Seq<(u64, u64)>;

    closed spec fn view(&self) -> Seq<(u64, u64)> {
        self.entries@
    }
}

impl PurchaseLedger {
    /// Each identity has at most one entry.
    pub open spec fn wf(&self) -> bool {
        unique_keys(self@)
    }

    /// Cumulative units bought by `a`; zero for an identity never recorded.
    pub open spec fn spec_units(&self, a: u64) -> u64 {
        seq_units(self@, a)
    }

    /// A new ledger has no entries: every identity has bought zero units.
    pub fn new() -> (l: PurchaseLedger)
        ensures
            l.wf(),
            l@ == Seq::<(u64, u64)>::empty(),
            forall|a: u64| l.spec_units(a) == 0,
    {
        PurchaseLedger { entries: Vec::new() }
    }

    /// Cumulative units bought by `a`; zero for an identity never recorded.
    pub fn get(&self, a: u64) -> (r: u64)
        ensures
            r == self.spec_units(a),
    {
        let n: usize = self.entries.len();
        for i in 0..n
            invariant
                n == self.entries.len(),
                forall|j: int| 0 <= j < i ==> (#[trigger] self.entries@[j]).0 != a,
        {
            let e = self.entries[i];
            if e.0 == a {
                proof {
                    lemma_units_at_index(self@, a, i as int);
                }
                return e.1;
            }
        }
        proof {
            lemma_units_absent(self@, a);
        }
        0
    }

    /// Set `a`'s cumulative units to `units`: overwrite the existing entry in
    /// place, or append a new one, keeping insertion order.
    pub fn record(&mut self, a: u64, units: u64)
        requires
            old(self).wf(),
        ensures
            final(self).wf(),
            final(self)@ == spec_record(old(self)@, a, units),
            final(self).spec_units(a) == units,
            forall|b: u64|
                b != a ==> #[trigger] seq_units(final(self)@, b) == seq_units(old(self)@, b),
            forall|i: int|
                0 <= i < final(self)@.len() ==> (final(self)@[i] == (a, units) || (
                i < old(self)@.len() && final(self)@[i] == old(self)@[i])),
    {
        let found = self.index_of_key(a);
        match found {
            Some(i) => {
                self.entries.set(i, (a, units));
                proof {
                    let s0 = old(self)@;
                    let k = choose|k: int| 0 <= k < s0.len() && (#[trigger] s0[k]).0 == a;
                    assert(seq_has_key(s0, a));
                    assert(k == i as int);
                    lemma_units_at_index(self@, a, i as int);
                    assert forall|b: u64| b != a implies seq_units(self@, b) == seq_units(
                        s0,
                        b,
                    ) by {
                        lemma_units_update_other(s0, i as int, (a, units), b);
                    }
                }
            },
            None => {
                self.entries.push((a, units));
                proof {
                    let s0 = old(self)@;
                    assert(!seq_has_key(s0, a));
                    lemma_units_at_index(self@, a, s0.len() as int);
                    assert forall|b: u64| b != a implies seq_units(self@, b) == seq_units(
                        s0,
                        b,
                    ) by {
                        lemma_units_push_other(s0, (a, units), b);
                    }
                }
            },
        }
    }

    /// The ledger's entries, in insertion order.
    pub fn snapshot(&self) -> (r: Vec<(u64, u64)>)
        ensures
            r@ == self@,
    {
        let mut r: Vec<(u64, u64)> = Vec::new();
        let n: usize = self.entries.len();
        for i in 0..n
            invariant
                n == self.entries.len(),
                r@ =~= self.entries@.subrange(0, i as int),
        {
            r.push(self.entries[i]);
        }
        proof {
            assert(r@ =~= self@);
        }
        r
    }

    /// Position of the entry keyed by `a`, if one exists.
    fn index_of_key(&self, a: u64) -> (r: Option<usize>)
        ensures
            match r {
                Some(i) => 0 <= i < self@.len() && self@[i as int].0 == a && forall|j: int|
                    0 <= j < i ==> (#[trigger] self@[j]).0 != a,
                None => forall|j: int| 0 <= j < self@.len() ==> (#[trigger] self@[j]).0 != a,
            },
    {
        let n: usize = self.entries.len();
        for i in 0..n
            invariant
                n == self.entries.len(),
                forall|j: int| 0 <= j < i ==> (#[trigger] self.entries@[j]).0 != a,
        {
            if self.entries[i].0 == a {
                return Some(i);
            }
        }
        None
    }
}

} // verus!
