//! Addresses and the incremental aggregation of their activity.
//!
//! An [`Address`] accumulates the stream of [`TransactionAmount`]s
//! attributed to it: a running signed balance, the dates of its first
//! and latest activity, and a sticky miner flag.  The amounts are kept
//! as an owned, denormalized copy — the address is an aggregate root of
//! its own, persisted independently of the transactions the amounts
//! came from.

use vstd::prelude::*;
use vstd::multiset::Multiset;
use crate::clock;
use crate::json;
use crate::json::{FormatError, JsonV, JsonValue};
use crate::transaction::{
    TransactionAmount, TransactionAmountView, amount_records, amount_views, amounts_from_records,
    amounts_of_records, amounts_to_records, lemma_amount_records_round_trip, wf_amounts,
};

verus! {

/// Mathematical model of an [`Address`].
#[verifier::ext_equal]
pub ghost struct AddressView {
    pub hash: Seq<char>,
    pub last_transaction: int,
    pub coin_total: int,
    pub is_miner: bool,
    pub first_transaction: int,
    pub last_updated: Seq<char>,
    pub needs_update: bool,
    pub transactions: Seq<TransactionAmountView>,
}

/// The date of the latest amount in `s`, or `0` — the reserved
/// "no activity" sentinel — when `s` is empty.
pub open spec fn latest_date(s: Seq<TransactionAmountView>) -> int
    decreases s.len(),
{
    if s.len() == 0 {
        0
    } else if s.len() == 1 {
        s[0].date
    } else if latest_date(s.drop_last()) >= s.last().date {
        latest_date(s.drop_last())
    } else {
        s.last().date
    }
}

/// The sum of the `amount` fields of `s`.
pub open spec fn amount_sum(s: Seq<TransactionAmountView>) -> int
    decreases s.len(),
{
    if s.len() == 0 {
        0
    } else {
        amount_sum(s.drop_last()) + s.last().amount
    }
}

/// One aggregation step: what [`Address::add_transaction_amount`] does
/// to the model of the address.
pub open spec fn apply_amount(
    a: AddressView,
    t: TransactionAmountView,
    is_miner: bool,
) -> AddressView {
    AddressView {
        is_miner: a.is_miner || is_miner,
        coin_total: a.coin_total + t.amount,
        first_transaction: if a.transactions.len() == 0 {
            t.date
        } else {
            a.first_transaction
        },
        transactions: a.transactions.push(t),
        last_transaction: latest_date(a.transactions.push(t)),
        ..a
    }
}

/// The model of a freshly constructed address, before any attribution.
pub open spec fn fresh_address(hash: Seq<char>, last_updated: Seq<char>) -> AddressView {
    AddressView {
        hash,
        last_transaction: 0,
        coin_total: 0,
        is_miner: false,
        first_transaction: 0,
        last_updated,
        needs_update: true,
        transactions: Seq::<TransactionAmountView>::empty(),
    }
}

/// The model of a whole aggregation pass: the amounts and miner hints
/// of `events`, applied to `a` in order.
pub open spec fn aggregate(
    a: AddressView,
    events: Seq<(TransactionAmountView, bool)>,
) -> AddressView
    decreases events.len(),
{
    if events.len() == 0 {
        a
    } else {
        apply_amount(aggregate(a, events.drop_last()), events.last().0, events.last().1)
    }
}

/// How one more call extends a whole pass: appending an event to the
/// stream is one more [`apply_amount`] step — the bridge between the
/// contract of [`Address::add_transaction_amount`] and the laws stated
/// over [`aggregate`].
pub proof fn lemma_aggregate_step(
    a: AddressView,
    events: Seq<(TransactionAmountView, bool)>,
    t: TransactionAmountView,
    is_miner: bool,
)
    ensures
        aggregate(a, events.push((t, is_miner))) == apply_amount(aggregate(a, events), t, is_miner),
{
    assert(events.push((t, is_miner)).drop_last() =~= events);
}

/// The amounts of a stream of aggregation events, hints stripped.
pub open spec fn event_amounts(events: Seq<(TransactionAmountView, bool)>) -> Seq<
    TransactionAmountView,
> {
    events.map_values(|e: (TransactionAmountView, bool)| e.0)
}

/// An address of the indexed chain with its aggregated activity.
#[derive(Debug)]
pub struct Address {
    hash: String,
    last_transaction: i64,
    coin_total: i64,
    is_miner: bool,
    first_transaction: i64,
    last_updated: String,
    needs_update: bool,
    transactions: Vec<TransactionAmount>,
}

impl View for Address {
    type V = AddressView;

    closed spec fn view(&self) -> AddressView {
        AddressView {
            hash: self.hash@,
            last_transaction: self.last_transaction as int,
            coin_total: self.coin_total as int,
            is_miner: self.is_miner,
            first_transaction: self.first_transaction as int,
            last_updated: self.last_updated@,
            needs_update: self.needs_update,
            transactions: amount_views(self.transactions@),
        }
    }
}

impl Address {
    /// A fresh address with no recorded activity: zero balance, the
    /// `0` sentinel in both activity dates, and the miner flag unset.
    pub fn new(hash: String) -> (r: Self)
        ensures
            r@ == fresh_address(hash@, r@.last_updated),
    {
        let ghost h = hash@;
        let r = Address {
            hash,
            last_transaction: 0,
            coin_total: 0,
            is_miner: false,
            first_transaction: 0,
            last_updated: clock::now_rfc3339(),
            needs_update: true,
            transactions: Vec::new(),
        };
        proof {
            assert(r@ =~= fresh_address(h, r@.last_updated));
        }
        r
    }

    /// Attributes one more amount to this address: ors the miner hint
    /// into the sticky flag, adds the amount into the running balance,
    /// records the date of the very first attribution, appends the
    /// amount to the owned copy, and recomputes the latest-activity
    /// date over the whole accumulated sequence — never trusting
    /// arrival order.
    pub fn add_transaction_amount(
        &mut self,
        tx_amount: TransactionAmount,
        is_miner: bool,
    ) -> (r: &mut Self)
        requires
            i64::MIN <= old(self)@.coin_total + tx_amount@.amount <= i64::MAX,
        ensures
            (*r)@ == apply_amount(old(self)@, tx_amount@, is_miner),
            *final(self) == *final(r),
    {
        if is_miner {
            self.is_miner = true;
        }

        self.coin_total = self.coin_total + tx_amount.amount();

        if self.transactions.len() == 0 {
            self.first_transaction = tx_amount.date();
        }

        let ghost before = amount_views(self.transactions@);
        let ghost added = tx_amount@;
        self.transactions.push(tx_amount);
        proof {
            assert(amount_views(self.transactions@) =~= before.push(added));
        }

        self.last_transaction = self.get_latest_transaction();

        self
    }

    /// The date of the latest amount attributed so far, `0` when none
    /// is: the full recomputation behind `last_transaction`.
    fn get_latest_transaction(&self) -> (r: i64)
        ensures
            r as int == latest_date(amount_views(self.transactions@)),
    {
        let ghost all = amount_views(self.transactions@);
        if self.transactions.len() == 0 {
            return 0;
        }
        let mut m: i64 = self.transactions[0].date();
        let mut i: usize = 1;
        while i < self.transactions.len()
            invariant
                1 <= i <= self.transactions.len(),
                all == amount_views(self.transactions@),
                all.len() == self.transactions.len(),
                m as int == latest_date(all.take(i as int)),
            decreases self.transactions.len() - i,
        {
            proof {
                assert(all.take(i + 1).drop_last() =~= all.take(i as int));
                assert(all.take(i + 1).last() == all[i as int]);
            }
            let d = self.transactions[i].date();
            if d > m {
                m = d;
            }
            i += 1;
        }
        proof {
            assert(all.take(all.len() as int) =~= all);
        }
        m
    }

    pub fn hash(&self) -> (r: &String)
        ensures
            r@ == self@.hash,
    {
        &self.hash
    }

    pub fn last_transaction(&self) -> (r: i64)
        ensures
            r as int == self@.last_transaction,
    {
        self.last_transaction
    }

    pub fn coin_total(&self) -> (r: i64)
        ensures
            r as int == self@.coin_total,
    {
        self.coin_total
    }

    pub fn is_miner(&self) -> (r: bool)
        ensures
            r == self@.is_miner,
    {
        self.is_miner
    }

    pub fn first_transaction(&self) -> (r: i64)
        ensures
            r as int == self@.first_transaction,
    {
        self.first_transaction
    }

    pub fn last_updated(&self) -> (r: &String)
        ensures
            r@ == self@.last_updated,
    {
        &self.last_updated
    }

    pub fn transactions(&self) -> (r: &Vec<TransactionAmount>)
        ensures
            amount_views(r@) == self@.transactions,
    {
        &self.transactions
    }
}


proof fn lemma_multiset_len_eq<A>(s1: Seq<A>, s2: Seq<A>)
    requires
        s1.to_multiset() == s2.to_multiset(),
    ensures
        s1.len() == s2.len(),
{
    s1.to_multiset_ensures();
    s2.to_multiset_ensures();
}

proof fn lemma_multiset_contains<A>(s1: Seq<A>, s2: Seq<A>, x: A)
    requires
        s1.to_multiset() == s2.to_multiset(),
        s1.contains(x),
    ensures
        s2.contains(x),
{
    s1.to_multiset_ensures();
    s2.to_multiset_ensures();
    assert(s1.to_multiset().count(x) > 0);
    assert(s2.to_multiset().count(x) > 0);
}

proof fn lemma_drop_last_multiset<A>(s: Seq<A>)
    requires
        s.len() > 0,
    ensures
        s.drop_last().to_multiset() == s.to_multiset().remove(s.last()),
{
    broadcast use vstd::multiset::group_multiset_axioms;

    s.drop_last().to_multiset_ensures();
    assert(s.drop_last().push(s.last()) =~= s);
    assert(s.drop_last().push(s.last()).to_multiset() =~= s.drop_last().to_multiset().insert(
        s.last(),
    ));
    assert(s.drop_last().to_multiset().insert(s.last()).remove(s.last()) =~= s.drop_last()
        .to_multiset());
}

proof fn lemma_amount_sum_remove(s: Seq<TransactionAmountView>, i: int)
    requires
        0 <= i < s.len(),
    ensures
        amount_sum(s.remove(i)) == amount_sum(s) - s[i].amount,
    decreases s.len(),
{
    if i == s.len() - 1 {
        assert(s.remove(i) =~= s.drop_last());
    } else {
        assert(s.remove(i).drop_last() =~= s.drop_last().remove(i));
        assert(s.remove(i).last() == s.last());
        lemma_amount_sum_remove(s.drop_last(), i);
    }
}

/// The sum of the amounts depends only on which amounts occur, with
/// multiplicity — not on their order.
pub proof fn lemma_amount_sum_permutation(
    s1: Seq<TransactionAmountView>,
    s2: Seq<TransactionAmountView>,
)
    requires
        s1.to_multiset() == s2.to_multiset(),
    ensures
        amount_sum(s1) == amount_sum(s2),
    decreases s1.len(),
{
    lemma_multiset_len_eq(s1, s2);
    if s1.len() > 0 {
        let t = s1.last();
        assert(s1.contains(t)) by {
            assert(s1[s1.len() - 1] == t);
        }
        lemma_multiset_contains(s1, s2, t);
        let j = choose|j: int| 0 <= j < s2.len() && s2[j] == t;
        lemma_amount_sum_remove(s2, j);
        lemma_drop_last_multiset(s1);
        s2.to_multiset_ensures();
        assert(s2.remove(j).to_multiset() == s2.to_multiset().remove(t));
        lemma_amount_sum_permutation(s1.drop_last(), s2.remove(j));
    }
}

/// `latest_date` of a nonempty sequence is the date of one of its
/// amounts, and no amount in it is later.
pub proof fn lemma_latest_date_bounds(s: Seq<TransactionAmountView>)
    requires
        s.len() > 0,
    ensures
        exists|i: int| 0 <= i < s.len() && (#[trigger] s[i]).date == latest_date(s),
        forall|i: int| 0 <= i < s.len() ==> (#[trigger] s[i]).date <= latest_date(s),
    decreases s.len(),
{
    if s.len() == 1 {
        assert(s[0].date == latest_date(s));
    } else {
        lemma_latest_date_bounds(s.drop_last());
        assert(forall|i: int| 0 <= i < s.len() - 1 ==> (#[trigger] s[i]) == s.drop_last()[i]);
        if latest_date(s.drop_last()) >= s.last().date {
            let w = choose|i: int|
                0 <= i < s.drop_last().len() && (#[trigger] s.drop_last()[i]).date == latest_date(
                    s.drop_last(),
                );
            assert(s[w].date == latest_date(s));
        } else {
            assert(s[s.len() - 1].date == latest_date(s));
        }
    }
}

/// The latest date depends only on which amounts occur, with
/// multiplicity — not on their order.
pub proof fn lemma_latest_date_permutation(
    s1: Seq<TransactionAmountView>,
    s2: Seq<TransactionAmountView>,
)
    requires
        s1.to_multiset() == s2.to_multiset(),
    ensures
        latest_date(s1) == latest_date(s2),
{
    lemma_multiset_len_eq(s1, s2);
    if s1.len() > 0 {
        lemma_latest_date_bounds(s1);
        lemma_latest_date_bounds(s2);
        let i1 = choose|i: int| 0 <= i < s1.len() && (#[trigger] s1[i]).date == latest_date(s1);
        let i2 = choose|i: int| 0 <= i < s2.len() && (#[trigger] s2[i]).date == latest_date(s2);
        assert(s1.contains(s1[i1]));
        assert(s2.contains(s2[i2]));
        lemma_multiset_contains(s1, s2, s1[i1]);
        lemma_multiset_contains(s2, s1, s2[i2]);
        let j1 = choose|j: int| 0 <= j < s2.len() && s2[j] == s1[i1];
        let j2 = choose|j: int| 0 <= j < s1.len() && s1[j] == s2[i2];
        assert(latest_date(s1) == s2[j1].date);
        assert(latest_date(s2) == s1[j2].date);
    }
}

/// How every field of the aggregate state is determined by the event
/// stream: the owned copy is the appended amounts; the balance moves by
/// their sum; the miner flag is the disjunction of the hints; the
/// first-activity date is set once, by the first event that finds the
/// address empty; the latest-activity date is the maximum over the
/// whole accumulated sequence.
pub proof fn lemma_aggregate_fields(a: AddressView, events: Seq<(TransactionAmountView, bool)>)
    ensures
        aggregate(a, events).hash == a.hash,
        aggregate(a, events).last_updated == a.last_updated,
        aggregate(a, events).needs_update == a.needs_update,
        aggregate(a, events).transactions == a.transactions + event_amounts(events),
        aggregate(a, events).coin_total == a.coin_total + amount_sum(event_amounts(events)),
        aggregate(a, events).is_miner == (a.is_miner || exists|i: int|
            0 <= i < events.len() && (#[trigger] events[i]).1),
        aggregate(a, events).first_transaction == if events.len() == 0 || a.transactions.len() > 0 {
            a.first_transaction
        } else {
            events[0].0.date
        },
        aggregate(a, events).last_transaction == if events.len() == 0 {
            a.last_transaction
        } else {
            latest_date(a.transactions + event_amounts(events))
        },
    decreases events.len(),
{
    if events.len() == 0 {
        assert(a.transactions + event_amounts(events) =~= a.transactions);
    } else {
        let prefix = events.drop_last();
        let e = events.last();
        lemma_aggregate_fields(a, prefix);
        assert(event_amounts(prefix) =~= event_amounts(events).drop_last());
        assert((a.transactions + event_amounts(prefix)).push(e.0) =~= a.transactions
            + event_amounts(events));
        assert(event_amounts(events).drop_last().push(e.0) =~= event_amounts(events));
        if exists|i: int| 0 <= i < prefix.len() && (#[trigger] prefix[i]).1 {
            let w = choose|i: int| 0 <= i < prefix.len() && (#[trigger] prefix[i]).1;
            assert(events[w].1);
        }
        if e.1 {
            assert(events[events.len() - 1].1);
        }
        assert(forall|i: int| 0 <= i < prefix.len() ==> prefix[i] == #[trigger] events[i]);
    }
}

proof fn lemma_concat_multiset(s1: Seq<TransactionAmountView>, s2: Seq<TransactionAmountView>)
    ensures
        (s1 + s2).to_multiset() == s1.to_multiset().add(s2.to_multiset()),
    decreases s2.len(),
{
    broadcast use vstd::multiset::group_multiset_axioms;

    if s2.len() == 0 {
        assert(s1 + s2 =~= s1);
        s2.to_multiset_ensures();
        assert(s2.to_multiset() =~= Multiset::<TransactionAmountView>::empty()) by {
            s2.to_multiset_ensures();
            assert(s2.to_multiset().len() == 0);
        }
        assert(s1.to_multiset().add(s2.to_multiset()) =~= s1.to_multiset());
    } else {
        lemma_concat_multiset(s1, s2.drop_last());
        (s1 + s2.drop_last()).to_multiset_ensures();
        s2.drop_last().to_multiset_ensures();
        assert((s1 + s2.drop_last()).push(s2.last()) =~= s1 + s2);
        assert(s2.drop_last().push(s2.last()) =~= s2);
        assert((s1 + s2.drop_last()).push(s2.last()).to_multiset() == (s1
            + s2.drop_last()).to_multiset().insert(s2.last()));
        assert(s2.drop_last().push(s2.last()).to_multiset() == s2.drop_last().to_multiset().insert(
            s2.last(),
        ));
        assert(s1.to_multiset().add(s2.drop_last().to_multiset()).insert(s2.last())
            =~= s1.to_multiset().add(s2.to_multiset()));
    }
}

proof fn lemma_event_amounts_remove(s: Seq<(TransactionAmountView, bool)>, i: int)
    requires
        0 <= i < s.len(),
    ensures
        event_amounts(s.remove(i)) =~= event_amounts(s).remove(i),
{
}

/// Mapping an event stream to its amounts preserves multiset equality.
proof fn lemma_event_amounts_multiset(
    s1: Seq<(TransactionAmountView, bool)>,
    s2: Seq<(TransactionAmountView, bool)>,
)
    requires
        s1.to_multiset() == s2.to_multiset(),
    ensures
        event_amounts(s1).to_multiset() == event_amounts(s2).to_multiset(),
    decreases s1.len(),
{
    lemma_multiset_len_eq(s1, s2);
    if s1.len() == 0 {
        assert(event_amounts(s1) =~= event_amounts(s2));
    } else {
        let t = s1.last();
        assert(s1.contains(t)) by {
            assert(s1[s1.len() - 1] == t);
        }
        lemma_multiset_contains(s1, s2, t);
        let j = choose|j: int| 0 <= j < s2.len() && s2[j] == t;
        lemma_drop_last_multiset(s1);
        s2.to_multiset_ensures();
        assert(s2.remove(j).to_multiset() == s2.to_multiset().remove(t));
        lemma_event_amounts_multiset(s1.drop_last(), s2.remove(j));
        lemma_event_amounts_remove(s2, j);
        event_amounts(s2).to_multiset_ensures();
        event_amounts(s2.remove(j)).to_multiset_ensures();
        assert(event_amounts(s2)[j] == t.0);
        assert(event_amounts(s2).remove(j).to_multiset() == event_amounts(s2)
            .to_multiset().remove(t.0)) by {
            event_amounts(s2).to_multiset_ensures();
        }
        assert(event_amounts(s1.drop_last()).push(t.0) =~= event_amounts(s1));
        assert(event_amounts(s1.drop_last()).push(t.0).to_multiset() == event_amounts(
            s1.drop_last(),
        ).to_multiset().insert(t.0)) by {
            event_amounts(s1.drop_last()).to_multiset_ensures();
        }
        assert(event_amounts(s1).to_multiset() =~= event_amounts(s2).to_multiset()) by {
            broadcast use vstd::multiset::group_multiset_axioms;
        }
    }
}

/// Law: any two aggregation passes over the same multiset of events —
/// any append order — agree on the balance, the latest-activity date
/// and the miner flag.
pub proof fn lemma_aggregate_order_insensitive(
    a: AddressView,
    events1: Seq<(TransactionAmountView, bool)>,
    events2: Seq<(TransactionAmountView, bool)>,
)
    requires
        events1.to_multiset() == events2.to_multiset(),
    ensures
        aggregate(a, events1).coin_total == aggregate(a, events2).coin_total,
        aggregate(a, events1).last_transaction == aggregate(a, events2).last_transaction,
        aggregate(a, events1).is_miner == aggregate(a, events2).is_miner,
{
    lemma_aggregate_fields(a, events1);
    lemma_aggregate_fields(a, events2);
    lemma_multiset_len_eq(events1, events2);
    lemma_event_amounts_multiset(events1, events2);
    lemma_amount_sum_permutation(event_amounts(events1), event_amounts(events2));
    if events1.len() > 0 {
        lemma_concat_multiset(a.transactions, event_amounts(events1));
        lemma_concat_multiset(a.transactions, event_amounts(events2));
        assert((a.transactions + event_amounts(events1)).to_multiset() == (a.transactions
            + event_amounts(events2)).to_multiset()) by {
            broadcast use vstd::multiset::group_multiset_axioms;
        }
        lemma_latest_date_permutation(
            a.transactions + event_amounts(events1),
            a.transactions + event_amounts(events2),
        );
    }
    if exists|i: int| 0 <= i < events1.len() && (#[trigger] events1[i]).1 {
        let w = choose|i: int| 0 <= i < events1.len() && (#[trigger] events1[i]).1;
        assert(events1.contains(events1[w]));
        lemma_multiset_contains(events1, events2, events1[w]);
        let j = choose|j: int| 0 <= j < events2.len() && events2[j] == events1[w];
        assert(events2[j].1);
    }
    if exists|i: int| 0 <= i < events2.len() && (#[trigger] events2[i]).1 {
        let w = choose|i: int| 0 <= i < events2.len() && (#[trigger] events2[i]).1;
        assert(events2.contains(events2[w]));
        lemma_multiset_contains(events2, events1, events2[w]);
        let j = choose|j: int| 0 <= j < events1.len() && events1[j] == events2[w];
        assert(events1[j].1);
    }
}

/// Law: the miner flag of a fresh address is set after an aggregation
/// pass if and only if at least one event carried a true miner hint; a
/// later false hint never clears it.
pub proof fn lemma_miner_flag_iff(
    hash: Seq<char>,
    last_updated: Seq<char>,
    events: Seq<(TransactionAmountView, bool)>,
)
    ensures
        aggregate(fresh_address(hash, last_updated), events).is_miner <==> exists|i: int|
            0 <= i < events.len() && (#[trigger] events[i]).1,
{
    lemma_aggregate_fields(fresh_address(hash, last_updated), events);
}

/// Law: for a fresh address, the latest-activity date after a pass is
/// the maximum date among the attributed amounts (the `0` sentinel when
/// there are none), and the first-activity date is the date of the
/// first event — which is the minimum date whenever the earliest amount
/// arrives first.  When it does not, `first_transaction` keeps the
/// first-seen date, not the least one: it is set once and never
/// revisited.
pub proof fn lemma_activity_window(
    hash: Seq<char>,
    last_updated: Seq<char>,
    events: Seq<(TransactionAmountView, bool)>,
)
    ensures
        events.len() > 0 ==> aggregate(fresh_address(hash, last_updated), events).last_transaction
            == latest_date(event_amounts(events)),
        events.len() > 0 ==> aggregate(fresh_address(hash, last_updated), events).first_transaction
            == events[0].0.date,
        (events.len() > 0 && (forall|i: int|
            0 <= i < events.len() ==> events[0].0.date <= (#[trigger] events[i]).0.date))
            ==> forall|i: int|
            0 <= i < events.len() ==> aggregate(
                fresh_address(hash, last_updated),
                events,
            ).first_transaction <= (#[trigger] events[i]).0.date,
{
    let a = fresh_address(hash, last_updated);
    lemma_aggregate_fields(a, events);
    assert(a.transactions + event_amounts(events) =~= event_amounts(events));
}

/// Law: for a fresh address, the balance after a pass is the exact sum
/// of the attributed amounts.
pub proof fn lemma_coin_total_is_sum(
    hash: Seq<char>,
    last_updated: Seq<char>,
    events: Seq<(TransactionAmountView, bool)>,
)
    ensures
        aggregate(fresh_address(hash, last_updated), events).coin_total == amount_sum(
            event_amounts(events),
        ),
{
    lemma_aggregate_fields(fresh_address(hash, last_updated), events);
}


/// The interchange record of an address: its scalar fields in
/// canonical order, then the accumulated amounts under the
/// `transactions` key.
pub open spec fn address_record(a: AddressView) -> JsonV {
    JsonV::Object(
        seq![
            ("hash"@, JsonV::Str(a.hash)),
            ("last_transaction"@, JsonV::Int(a.last_transaction)),
            ("coin_total"@, JsonV::Int(a.coin_total)),
            ("is_miner"@, JsonV::Bool(a.is_miner)),
            ("first_transaction"@, JsonV::Int(a.first_transaction)),
            ("last_updated"@, JsonV::Str(a.last_updated)),
            ("needs_update"@, JsonV::Bool(a.needs_update)),
            ("transactions"@, JsonV::Array(amount_records(a.transactions))),
        ],
    )
}

/// The backend write projection of an address: the full record with
/// the accumulated amounts stripped, and nothing else.
pub open spec fn address_backend_record(a: AddressView) -> JsonV {
    JsonV::Object(
        seq![
            ("hash"@, JsonV::Str(a.hash)),
            ("last_transaction"@, JsonV::Int(a.last_transaction)),
            ("coin_total"@, JsonV::Int(a.coin_total)),
            ("is_miner"@, JsonV::Bool(a.is_miner)),
            ("first_transaction"@, JsonV::Int(a.first_transaction)),
            ("last_updated"@, JsonV::Str(a.last_updated)),
            ("needs_update"@, JsonV::Bool(a.needs_update)),
        ],
    )
}

/// The address a record denotes: every field required, the amounts
/// under the `transactions` key; unknown fields ignored.
pub open spec fn address_of_record(v: JsonV) -> Option<AddressView> {
    match v {
        JsonV::Object(f) => {
            let transactions = match json::spec_lookup(f, "transactions"@) {
                Some(JsonV::Array(items)) => amounts_of_records(items),
                _ => None,
            };
            match (json::spec_get_str(f, "hash"@), json::spec_get_int(f, "last_transaction"@), json::spec_get_int(f, "coin_total"@), json::spec_get_bool(f, "is_miner"@), json::spec_get_int(f, "first_transaction"@), json::spec_get_str(f, "last_updated"@), json::spec_get_bool(f, "needs_update"@), transactions) {
                (
                    Some(hash),
                    Some(last_transaction),
                    Some(coin_total),
                    Some(is_miner),
                    Some(first_transaction),
                    Some(last_updated),
                    Some(needs_update),
                    Some(transactions),
                ) => Some(
                    AddressView {
                        hash,
                        last_transaction,
                        coin_total,
                        is_miner,
                        first_transaction,
                        last_updated,
                        needs_update,
                        transactions,
                    },
                ),
                _ => None,
            }
        },
        _ => None,
    }
}

/// Whether an address model is realizable: each numeric field fits its
/// machine integer and every accumulated amount is realizable.
pub open spec fn wf_address(a: AddressView) -> bool {
    &&& i64::MIN <= a.last_transaction <= i64::MAX
    &&& i64::MIN <= a.coin_total <= i64::MAX
    &&& i64::MIN <= a.first_transaction <= i64::MAX
    &&& wf_amounts(a.transactions)
}

/// Law: an address's record deserializes back to the address itself,
/// accumulated amounts included.
pub proof fn lemma_address_record_round_trip(a: AddressView)
    requires
        wf_address(a),
    ensures
        address_of_record(address_record(a)) == Some(a),
{
    let f = address_record(a)->Object_0;
    let f1 = f.drop_first();
    let f2 = f1.drop_first();
    let f3 = f2.drop_first();
    let f4 = f3.drop_first();
    let f5 = f4.drop_first();
    let f6 = f5.drop_first();
    let f7 = f6.drop_first();
    assert(f.len() == 8);
    assert(f1.len() == 7 && f1[0] == f[1] && f1[1] == f[2] && f1[2] == f[3] && f1[3] == f[4] && f1[4] == f[5] && f1[5] == f[6] && f1[6] == f[7]);
    assert(f2.len() == 6 && f2[0] == f[2] && f2[1] == f[3] && f2[2] == f[4] && f2[3] == f[5] && f2[4] == f[6] && f2[5] == f[7]);
    assert(f3.len() == 5 && f3[0] == f[3] && f3[1] == f[4] && f3[2] == f[5] && f3[3] == f[6] && f3[4] == f[7]);
    assert(f4.len() == 4 && f4[0] == f[4] && f4[1] == f[5] && f4[2] == f[6] && f4[3] == f[7]);
    assert(f5.len() == 3 && f5[0] == f[5] && f5[1] == f[6] && f5[2] == f[7]);
    assert(f6.len() == 2 && f6[0] == f[6] && f6[1] == f[7]);
    assert(f7.len() == 1 && f7[0] == f[7]);
    reveal_strlit("hash");
    reveal_strlit("last_transaction");
    reveal_strlit("coin_total");
    reveal_strlit("is_miner");
    reveal_strlit("first_transaction");
    reveal_strlit("last_updated");
    reveal_strlit("needs_update");
    reveal_strlit("transactions");
    assert("hash"@.len() == 4);
    assert("last_transaction"@.len() == 16);
    assert("coin_total"@.len() == 10);
    assert("is_miner"@.len() == 8);
    assert("first_transaction"@.len() == 17);
    assert("last_updated"@.len() == 12);
    assert("needs_update"@.len() == 12);
    assert("transactions"@.len() == 12);
    assert("last_updated"@[0] == 'l');
    assert("needs_update"@[0] == 'n');
    assert("transactions"@[0] == 't');
    assert(json::spec_lookup(f, "hash"@) == Some(JsonV::Str(a.hash)));
    assert(json::spec_lookup(f1, "last_transaction"@) == Some(JsonV::Int(a.last_transaction)));
    assert(json::spec_lookup(f, "last_transaction"@) == json::spec_lookup(f1, "last_transaction"@));
    assert(json::spec_lookup(f2, "coin_total"@) == Some(JsonV::Int(a.coin_total)));
    assert(json::spec_lookup(f1, "coin_total"@) == json::spec_lookup(f2, "coin_total"@));
    assert(json::spec_lookup(f, "coin_total"@) == json::spec_lookup(f1, "coin_total"@));
    assert(json::spec_lookup(f3, "is_miner"@) == Some(JsonV::Bool(a.is_miner)));
    assert(json::spec_lookup(f2, "is_miner"@) == json::spec_lookup(f3, "is_miner"@));
    assert(json::spec_lookup(f1, "is_miner"@) == json::spec_lookup(f2, "is_miner"@));
    assert(json::spec_lookup(f, "is_miner"@) == json::spec_lookup(f1, "is_miner"@));
    assert(json::spec_lookup(f4, "first_transaction"@) == Some(JsonV::Int(a.first_transaction)));
    assert(json::spec_lookup(f3, "first_transaction"@) == json::spec_lookup(f4, "first_transaction"@));
    assert(json::spec_lookup(f2, "first_transaction"@) == json::spec_lookup(f3, "first_transaction"@));
    assert(json::spec_lookup(f1, "first_transaction"@) == json::spec_lookup(f2, "first_transaction"@));
    assert(json::spec_lookup(f, "first_transaction"@) == json::spec_lookup(f1, "first_transaction"@));
    assert(json::spec_lookup(f5, "last_updated"@) == Some(JsonV::Str(a.last_updated)));
    assert(json::spec_lookup(f4, "last_updated"@) == json::spec_lookup(f5, "last_updated"@));
    assert(json::spec_lookup(f3, "last_updated"@) == json::spec_lookup(f4, "last_updated"@));
    assert(json::spec_lookup(f2, "last_updated"@) == json::spec_lookup(f3, "last_updated"@));
    assert(json::spec_lookup(f1, "last_updated"@) == json::spec_lookup(f2, "last_updated"@));
    assert(json::spec_lookup(f, "last_updated"@) == json::spec_lookup(f1, "last_updated"@));
    assert(json::spec_lookup(f6, "needs_update"@) == Some(JsonV::Bool(a.needs_update)));
    assert(json::spec_lookup(f5, "needs_update"@) == json::spec_lookup(f6, "needs_update"@));
    assert(json::spec_lookup(f4, "needs_update"@) == json::spec_lookup(f5, "needs_update"@));
    assert(json::spec_lookup(f3, "needs_update"@) == json::spec_lookup(f4, "needs_update"@));
    assert(json::spec_lookup(f2, "needs_update"@) == json::spec_lookup(f3, "needs_update"@));
    assert(json::spec_lookup(f1, "needs_update"@) == json::spec_lookup(f2, "needs_update"@));
    assert(json::spec_lookup(f, "needs_update"@) == json::spec_lookup(f1, "needs_update"@));
    assert(json::spec_lookup(f7, "transactions"@) == Some(JsonV::Array(amount_records(a.transactions))));
    assert(json::spec_lookup(f6, "transactions"@) == json::spec_lookup(f7, "transactions"@));
    assert(json::spec_lookup(f5, "transactions"@) == json::spec_lookup(f6, "transactions"@));
    assert(json::spec_lookup(f4, "transactions"@) == json::spec_lookup(f5, "transactions"@));
    assert(json::spec_lookup(f3, "transactions"@) == json::spec_lookup(f4, "transactions"@));
    assert(json::spec_lookup(f2, "transactions"@) == json::spec_lookup(f3, "transactions"@));
    assert(json::spec_lookup(f1, "transactions"@) == json::spec_lookup(f2, "transactions"@));
    assert(json::spec_lookup(f, "transactions"@) == json::spec_lookup(f1, "transactions"@));
    lemma_amount_records_round_trip(a.transactions);
    assert(address_of_record(address_record(a)) == Some(a)) by {
        assert(match address_of_record(address_record(a)) {
            Some(u) => u =~= a,
            None => false,
        });
    }
}

impl Address {
    /// Serializes this address to its interchange record.
    pub fn to_record(&self) -> (r: JsonValue)
        ensures
            r@ == address_record(self@),
    {
        let amounts = amounts_to_records(&self.transactions);
        let mut fields: Vec<(String, JsonValue)> = Vec::new();
        fields.push(("hash".to_owned(), JsonValue::Str(self.hash.clone())));
        fields.push(("last_transaction".to_owned(), JsonValue::Int(self.last_transaction)));
        fields.push(("coin_total".to_owned(), JsonValue::Int(self.coin_total)));
        fields.push(("is_miner".to_owned(), JsonValue::Bool(self.is_miner)));
        fields.push(("first_transaction".to_owned(), JsonValue::Int(self.first_transaction)));
        fields.push(("last_updated".to_owned(), JsonValue::Str(self.last_updated.clone())));
        fields.push(("needs_update".to_owned(), JsonValue::Bool(self.needs_update)));
        fields.push(("transactions".to_owned(), JsonValue::Array(amounts)));
        let ghost gf = fields@;
        let r = JsonValue::Object(fields);
        proof {
            json::lemma_json_fields_view(gf);
            assert(gf.len() == 8);
            assert(gf[0].0@ == "hash"@);
            assert(gf[1].0@ == "last_transaction"@);
            assert(gf[2].0@ == "coin_total"@);
            assert(gf[3].0@ == "is_miner"@);
            assert(gf[4].0@ == "first_transaction"@);
            assert(gf[5].0@ == "last_updated"@);
            assert(gf[6].0@ == "needs_update"@);
            assert(gf[7].0@ == "transactions"@);
            assert(json::json_fields_view(gf) =~= address_record(self@)->Object_0);
            assert(r@ == address_record(self@));
        }
        r
    }

    /// The backend write projection: the record without the
    /// accumulated amounts.
    pub fn graphql_inputs(&self) -> (r: JsonValue)
        ensures
            r@ == address_backend_record(self@),
    {
        let mut fields: Vec<(String, JsonValue)> = Vec::new();
        fields.push(("hash".to_owned(), JsonValue::Str(self.hash.clone())));
        fields.push(("last_transaction".to_owned(), JsonValue::Int(self.last_transaction)));
        fields.push(("coin_total".to_owned(), JsonValue::Int(self.coin_total)));
        fields.push(("is_miner".to_owned(), JsonValue::Bool(self.is_miner)));
        fields.push(("first_transaction".to_owned(), JsonValue::Int(self.first_transaction)));
        fields.push(("last_updated".to_owned(), JsonValue::Str(self.last_updated.clone())));
        fields.push(("needs_update".to_owned(), JsonValue::Bool(self.needs_update)));
        let ghost gf = fields@;
        let r = JsonValue::Object(fields);
        proof {
            json::lemma_json_fields_view(gf);
            assert(gf.len() == 7);
            assert(gf[0].0@ == "hash"@);
            assert(gf[1].0@ == "last_transaction"@);
            assert(gf[2].0@ == "coin_total"@);
            assert(gf[3].0@ == "is_miner"@);
            assert(gf[4].0@ == "first_transaction"@);
            assert(gf[5].0@ == "last_updated"@);
            assert(gf[6].0@ == "needs_update"@);
            assert(json::json_fields_view(gf) =~= address_backend_record(self@)->Object_0);
            assert(r@ == address_backend_record(self@));
        }
        r
    }

    /// Deserializes an address from its interchange record.
    pub fn from_record(v: &JsonValue) -> (r: Result<Address, FormatError>)
        ensures
            match r {
                Ok(a) => address_of_record(v@) == Some(a@),
                Err(_) => address_of_record(v@) is None,
            },
    {
        let fields = match v {
            JsonValue::Object(f) => f,
            _ => {
                return Err(FormatError);
            },
        };
        let hash = match json::get_string(fields, "hash") {
            Ok(s) => s,
            Err(e) => {
                return Err(e);
            },
        };
        let last_transaction = match json::get_i64(fields, "last_transaction") {
            Ok(n) => n,
            Err(e) => {
                return Err(e);
            },
        };
        let coin_total = match json::get_i64(fields, "coin_total") {
            Ok(n) => n,
            Err(e) => {
                return Err(e);
            },
        };
        let is_miner = match json::get_bool(fields, "is_miner") {
            Ok(b) => b,
            Err(e) => {
                return Err(e);
            },
        };
        let first_transaction = match json::get_i64(fields, "first_transaction") {
            Ok(n) => n,
            Err(e) => {
                return Err(e);
            },
        };
        let last_updated = match json::get_string(fields, "last_updated") {
            Ok(s) => s,
            Err(e) => {
                return Err(e);
            },
        };
        let needs_update = match json::get_bool(fields, "needs_update") {
            Ok(b) => b,
            Err(e) => {
                return Err(e);
            },
        };
        let transactions = match json::lookup(fields, "transactions") {
            Some(JsonValue::Array(items)) => match amounts_from_records(items) {
                Ok(ts) => ts,
                Err(e) => {
                    return Err(e);
                },
            },
            _ => {
                return Err(FormatError);
            },
        };
        Ok(
            Address {
                hash,
                last_transaction,
                coin_total,
                is_miner,
                first_transaction,
                last_updated,
                needs_update,
                transactions,
            },
        )
    }

    /// The field-selection text a backend read of addresses asks for.
    pub fn fetch_fields() -> (r: String)
        ensures
            r@
                == "{ hash, last_transaction, coin_total, is_miner, first_transaction, last_updated, transaction_collection { amount, address_hash, transaction_hash, date, index, last_updated } }"@,
    {
        "{ hash, last_transaction, coin_total, is_miner, first_transaction, last_updated, transaction_collection { amount, address_hash, transaction_hash, date, index, last_updated } }".to_owned()
    }

    /// The insert-mutation text for an address write, naming the given
    /// input parameter.
    pub fn insert_query(&self, param: String) -> (r: String)
        ensures
            r@ == "create_address (input: $"@ + param@ + " ){ hash }"@,
    {
        let mut s = String::from_str("create_address (input: $");
        s.append(param.as_str());
        s.append(" ){ hash }");
        s
    }

    /// The backend input-type name of an address write.
    pub fn input_type(&self) -> (r: String)
        ensures
            r@ == "addressInput"@,
    {
        "addressInput".to_owned()
    }

    /// The delete-key expression of this address: its primary key.
    pub fn delete_input(&self) -> (r: String)
        ensures
            r@ == "hash: \""@ + self@.hash + "\""@,
    {
        let mut s = String::from_str("hash: \"");
        s.append(self.hash.as_str());
        s.append("\"");
        s
    }
}

} // verus!
