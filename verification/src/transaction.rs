//! Transactions and the transfer amounts they carry.

use vstd::prelude::*;
use crate::block::Block;
use crate::clock;
use crate::json;
use crate::json::{FormatError, JsonV, JsonValue};

verus! {

/// Mathematical model of a [`TransactionAmount`].
#[verifier::ext_equal]
pub ghost struct TransactionAmountView {
    pub amount: int,
    pub address_hash: Seq<char>,
    pub transaction_hash: Seq<char>,
    pub index: int,
    pub date: int,
    pub vin_index: int,
    pub vin_hash: Option<Seq<char>>,
}

/// A single value transfer: `amount` base units moving to (positive) or
/// from (negative) the address `address_hash`, as output number `index`
/// of the transaction `transaction_hash`.  `index == -1` is the sentinel
/// for "not an output".  `vin_index`/`vin_hash` identify the prior
/// output this amount consumes; a fresh output carries `vin_index == -1`
/// and no `vin_hash`.
///
/// Amounts are compared by `date` alone — a deliberately weak
/// ordering, so amounts sharing a date are equal for ordering
/// purposes.
#[derive(Debug)]
pub struct TransactionAmount {
    amount: i64,
    address_hash: String,
    transaction_hash: String,
    index: i32,
    date: i64,
    vin_index: i32,
    vin_hash: Option<String>,
}

impl View for TransactionAmount {
    type V = TransactionAmountView;

    closed spec fn view(&self) -> TransactionAmountView {
        TransactionAmountView {
            amount: self.amount as int,
            address_hash: self.address_hash@,
            transaction_hash: self.transaction_hash@,
            index: self.index as int,
            date: self.date as int,
            vin_index: self.vin_index as int,
            vin_hash: match self.vin_hash {
                Some(h) => Some(h@),
                None => None,
            },
        }
    }
}

impl TransactionAmount {
    /// A fresh amount: not yet linked to a consumed input, so
    /// `vin_index` starts at the `-1` sentinel with no `vin_hash`.
    pub fn new(
        amount: i64,
        address_hash: String,
        transaction_hash: String,
        date: i64,
        index: i32,
    ) -> (r: Self)
        ensures
            r@ == (TransactionAmountView {
                amount: amount as int,
                address_hash: address_hash@,
                transaction_hash: transaction_hash@,
                index: index as int,
                date: date as int,
                vin_index: -1,
                vin_hash: None,
            }),
    {
        TransactionAmount {
            amount,
            address_hash,
            transaction_hash,
            date,
            index,
            vin_index: -1,
            vin_hash: None,
        }
    }

    pub fn amount(&self) -> (r: i64)
        ensures
            r as int == self@.amount,
    {
        self.amount
    }

    pub fn address_hash(&self) -> (r: &String)
        ensures
            r@ == self@.address_hash,
    {
        &self.address_hash
    }

    pub fn transaction_hash(&self) -> (r: &String)
        ensures
            r@ == self@.transaction_hash,
    {
        &self.transaction_hash
    }

    pub fn index(&self) -> (r: i32)
        ensures
            r as int == self@.index,
    {
        self.index
    }

    pub fn date(&self) -> (r: i64)
        ensures
            r as int == self@.date,
    {
        self.date
    }

    pub fn vin_index(&self) -> (r: i32)
        ensures
            r as int == self@.vin_index,
    {
        self.vin_index
    }

    pub fn vin_hash(&self) -> (r: &Option<String>)
        ensures
            match r {
                Some(h) => self@.vin_hash == Some(h@),
                None => self@.vin_hash is None,
            },
    {
        &self.vin_hash
    }

    /// Links this amount to the input position it consumes.
    pub fn set_vin_index(&mut self, vin_index: i32)
        ensures
            final(self)@ == (TransactionAmountView { vin_index: vin_index as int, ..old(self)@ }),
    {
        self.vin_index = vin_index;
    }

    /// Links this amount to the transaction whose output it consumes.
    pub fn set_vin_hash(&mut self, vin_hash: Option<String>)
        ensures
            final(self)@ == (TransactionAmountView {
                vin_hash: match vin_hash {
                    Some(h) => Some(h@),
                    None => None,
                },
                ..old(self)@
            }),
    {
        self.vin_hash = vin_hash;
    }
}

impl PartialEq for TransactionAmount {
    fn eq(&self, other: &Self) -> bool {
        self.date == other.date
    }
}

impl vstd::std_specs::cmp::PartialEqSpecImpl for TransactionAmount {
    open spec fn obeys_eq_spec() -> bool {
        true
    }

    open spec fn eq_spec(&self, other: &Self) -> bool {
        self@.date == other@.date
    }
}

impl PartialOrd for TransactionAmount {
    fn partial_cmp(&self, other: &Self) -> (r: Option<core::cmp::Ordering>)
    {
        if self.date < other.date {
            Some(core::cmp::Ordering::Less)
        } else if self.date == other.date {
            Some(core::cmp::Ordering::Equal)
        } else {
            Some(core::cmp::Ordering::Greater)
        }
    }
}

impl vstd::std_specs::cmp::PartialOrdSpecImpl for TransactionAmount {
    open spec fn obeys_partial_cmp_spec() -> bool {
        true
    }

    open spec fn partial_cmp_spec(&self, other: &Self) -> Option<core::cmp::Ordering> {
        if self@.date < other@.date {
            Some(core::cmp::Ordering::Less)
        } else if self@.date == other@.date {
            Some(core::cmp::Ordering::Equal)
        } else {
            Some(core::cmp::Ordering::Greater)
        }
    }
}

/// The views of a sequence of amounts, element by element.
pub open spec fn amount_views(s: Seq<TransactionAmount>) -> Seq<TransactionAmountView> {
    s.map_values(|t: TransactionAmount| t@)
}

/// Mathematical model of a [`Transaction`].
#[verifier::ext_equal]
pub ghost struct TransactionView {
    pub hash: Seq<char>,
    pub date: int,
    pub is_coinbase: bool,
    pub block_hash: Seq<char>,
    pub block_height: int,
    pub last_updated: Seq<char>,
    pub transaction_amounts: Seq<TransactionAmountView>,
}

/// A transaction of the indexed chain.  `date`, `block_hash` and
/// `block_height` are denormalized copies of the containing block's
/// identity; [`Transaction::new_from_block`] is the constructor that
/// keeps this back-reference consistent by construction.
#[derive(Debug)]
pub struct Transaction {
    hash: String,
    date: i64,
    is_coinbase: bool,
    block_hash: String,
    block_height: i64,
    last_updated: String,
    transaction_amounts: Vec<TransactionAmount>,
}

impl View for Transaction {
    type V = TransactionView;

    closed spec fn view(&self) -> TransactionView {
        TransactionView {
            hash: self.hash@,
            date: self.date as int,
            is_coinbase: self.is_coinbase,
            block_hash: self.block_hash@,
            block_height: self.block_height as int,
            last_updated: self.last_updated@,
            transaction_amounts: amount_views(self.transaction_amounts@),
        }
    }
}

/// The views of a sequence of transactions, element by element.
pub open spec fn transaction_views(s: Seq<Transaction>) -> Seq<TransactionView> {
    s.map_values(|t: Transaction| t@)
}

impl Transaction {
    /// A standalone transaction with an explicit back-reference; the
    /// caller answers for `block_hash`/`block_height` naming a real
    /// block.  `last_updated` is stamped from the clock.
    pub fn new(
        hash: String,
        is_coinbase: bool,
        date: i64,
        block_hash: String,
        block_height: i64,
    ) -> (r: Self)
        ensures
            r@.hash == hash@,
            r@.date == date as int,
            r@.is_coinbase == is_coinbase,
            r@.block_hash == block_hash@,
            r@.block_height == block_height as int,
            r@.transaction_amounts == Seq::<TransactionAmountView>::empty(),
    {
        Transaction {
            hash,
            is_coinbase,
            date,
            block_hash,
            block_height,
            last_updated: clock::now_rfc3339(),
            transaction_amounts: Vec::new(),
        }
    }

    /// The sanctioned constructor: copies `date`, `hash` and `height`
    /// from the containing block, so the back-reference cannot drift.
    pub fn new_from_block(hash: String, is_coinbase: bool, block: &Block) -> (r: Self)
        ensures
            r@.hash == hash@,
            r@.date == block@.date,
            r@.is_coinbase == is_coinbase,
            r@.block_hash == block@.hash,
            r@.block_height == block@.height,
            r@.transaction_amounts == Seq::<TransactionAmountView>::empty(),
    {
        Transaction {
            hash,
            is_coinbase,
            date: block.date(),
            block_hash: block.hash().clone(),
            block_height: block.height(),
            last_updated: clock::now_display(),
            transaction_amounts: Vec::new(),
        }
    }

    pub fn hash(&self) -> (r: &String)
        ensures
            r@ == self@.hash,
    {
        &self.hash
    }

    pub fn date(&self) -> (r: i64)
        ensures
            r as int == self@.date,
    {
        self.date
    }

    pub fn is_coinbase(&self) -> (r: bool)
        ensures
            r == self@.is_coinbase,
    {
        self.is_coinbase
    }

    pub fn block_hash(&self) -> (r: &String)
        ensures
            r@ == self@.block_hash,
    {
        &self.block_hash
    }

    pub fn block_height(&self) -> (r: i64)
        ensures
            r as int == self@.block_height,
    {
        self.block_height
    }

    pub fn last_updated(&self) -> (r: &String)
        ensures
            r@ == self@.last_updated,
    {
        &self.last_updated
    }

    pub fn transaction_amounts(&self) -> (r: &Vec<TransactionAmount>)
        ensures
            amount_views(r@) == self@.transaction_amounts,
    {
        &self.transaction_amounts
    }

    /// Mutable access to the owned amounts, for attaching new ones.
    pub fn transaction_amounts_mut(&mut self) -> (r: &mut Vec<TransactionAmount>)
        ensures
            amount_views((*r)@) == old(self)@.transaction_amounts,
            final(self)@ == (TransactionView {
                transaction_amounts: amount_views(final(r)@),
                ..old(self)@
            }),
    {
        &mut self.transaction_amounts
    }

    /// Replaces the owned amounts wholesale.
    pub fn set_transaction_amounts(&mut self, transaction_amounts: Vec<TransactionAmount>)
        ensures
            final(self)@ == (TransactionView {
                transaction_amounts: amount_views(transaction_amounts@),
                ..old(self)@
            }),
    {
        self.transaction_amounts = transaction_amounts;
    }
}


/// The interchange record of an amount: its seven fields in canonical
/// order, `vin_hash` as explicit null when absent.
pub open spec fn amount_record(t: TransactionAmountView) -> JsonV {
    JsonV::Object(
        seq![
            ("amount"@, JsonV::Int(t.amount)),
            ("address_hash"@, JsonV::Str(t.address_hash)),
            ("transaction_hash"@, JsonV::Str(t.transaction_hash)),
            ("index"@, JsonV::Int(t.index)),
            ("date"@, JsonV::Int(t.date)),
            ("vin_index"@, JsonV::Int(t.vin_index)),
            (
                "vin_hash"@,
                match t.vin_hash {
                    Some(h) => JsonV::Str(h),
                    None => JsonV::Null,
                },
            ),
        ],
    )
}

/// The amount a record denotes: every field required except
/// `vin_hash`, whose absence and explicit null both mean "no value";
/// `index` and `vin_index` accept a native integer or a decimal-digit
/// string; unknown fields are ignored.
pub open spec fn amount_of_record(v: JsonV) -> Option<TransactionAmountView> {
    match v {
        JsonV::Object(f) => match (json::spec_get_int(f, "amount"@), json::spec_get_str(f, "address_hash"@), json::spec_get_str(f, "transaction_hash"@), json::spec_get_i32_lenient(f, "index"@), json::spec_get_int(f, "date"@), json::spec_get_i32_lenient(f, "vin_index"@), json::spec_get_opt_str(f, "vin_hash"@)) {
            (
                Some(amount),
                Some(address_hash),
                Some(transaction_hash),
                Some(index),
                Some(date),
                Some(vin_index),
                Some(vin_hash),
            ) => Some(
                TransactionAmountView {
                    amount,
                    address_hash,
                    transaction_hash,
                    index,
                    date,
                    vin_index,
                    vin_hash,
                },
            ),
            _ => None,
        },
        _ => None,
    }
}

impl TransactionAmount {
    /// Serializes this amount to its interchange record.
    pub fn to_record(&self) -> (r: JsonValue)
        ensures
            r@ == amount_record(self@),
    {
        let vin: JsonValue = match &self.vin_hash {
            Some(h) => JsonValue::Str(h.clone()),
            None => JsonValue::Null,
        };
        let mut fields: Vec<(String, JsonValue)> = Vec::new();
        fields.push(("amount".to_owned(), JsonValue::Int(self.amount)));
        fields.push(("address_hash".to_owned(), JsonValue::Str(self.address_hash.clone())));
        fields.push(
            ("transaction_hash".to_owned(), JsonValue::Str(self.transaction_hash.clone())),
        );
        fields.push(("index".to_owned(), JsonValue::Int(self.index as i64)));
        fields.push(("date".to_owned(), JsonValue::Int(self.date)));
        fields.push(("vin_index".to_owned(), JsonValue::Int(self.vin_index as i64)));
        fields.push(("vin_hash".to_owned(), vin));
        let ghost gf = fields@;
        let r = JsonValue::Object(fields);
        proof {
            json::lemma_json_fields_view(gf);
            assert(gf.len() == 7);
            assert(gf[0].0@ == "amount"@);
            assert(gf[1].0@ == "address_hash"@);
            assert(gf[2].0@ == "transaction_hash"@);
            assert(gf[3].0@ == "index"@);
            assert(gf[4].0@ == "date"@);
            assert(gf[5].0@ == "vin_index"@);
            assert(gf[6].0@ == "vin_hash"@);
            assert(json::json_fields_view(gf)[0] == ("amount"@, JsonV::Int(self@.amount)));
            assert(json::json_fields_view(gf)[1] == ("address_hash"@, JsonV::Str(
                self@.address_hash,
            )));
            assert(json::json_fields_view(gf)[2] == ("transaction_hash"@, JsonV::Str(
                self@.transaction_hash,
            )));
            assert(json::json_fields_view(gf)[3] == ("index"@, JsonV::Int(self@.index)));
            assert(json::json_fields_view(gf)[4] == ("date"@, JsonV::Int(self@.date)));
            assert(json::json_fields_view(gf)[5] == ("vin_index"@, JsonV::Int(self@.vin_index)));
            assert(json::json_fields_view(gf)[6] == ("vin_hash"@, match self@.vin_hash {
                Some(h) => JsonV::Str(h),
                None => JsonV::Null,
            }));
            assert(json::json_fields_view(gf) =~= amount_record(self@)->Object_0);
            assert(r@ == amount_record(self@));
        }
        r
    }

    /// Deserializes an amount from its interchange record.
    pub fn from_record(v: &JsonValue) -> (r: Result<TransactionAmount, FormatError>)
        ensures
            match r {
                Ok(t) => amount_of_record(v@) == Some(t@),
                Err(_) => amount_of_record(v@) is None,
            },
    {
        let fields = match v {
            JsonValue::Object(f) => f,
            _ => {
                return Err(FormatError);
            },
        };
        let amount = match json::get_i64(fields, "amount") {
            Ok(n) => n,
            Err(e) => {
                return Err(e);
            },
        };
        let address_hash = match json::get_string(fields, "address_hash") {
            Ok(s) => s,
            Err(e) => {
                return Err(e);
            },
        };
        let transaction_hash = match json::get_string(fields, "transaction_hash") {
            Ok(s) => s,
            Err(e) => {
                return Err(e);
            },
        };
        let index = match json::get_i32_lenient(fields, "index") {
            Ok(n) => n,
            Err(e) => {
                return Err(e);
            },
        };
        let date = match json::get_i64(fields, "date") {
            Ok(n) => n,
            Err(e) => {
                return Err(e);
            },
        };
        let vin_index = match json::get_i32_lenient(fields, "vin_index") {
            Ok(n) => n,
            Err(e) => {
                return Err(e);
            },
        };
        let vin_hash = match json::get_opt_string(fields, "vin_hash") {
            Ok(h) => h,
            Err(e) => {
                return Err(e);
            },
        };
        Ok(
            TransactionAmount {
                amount,
                address_hash,
                transaction_hash,
                date,
                index,
                vin_index,
                vin_hash,
            },
        )
    }
}


/// Whether an amount model is realizable: each numeric field fits the
/// machine integer that holds it.  The view of every
/// [`TransactionAmount`] satisfies this.
pub open spec fn wf_amount(t: TransactionAmountView) -> bool {
    &&& i64::MIN <= t.amount <= i64::MAX
    &&& i32::MIN <= t.index <= i32::MAX
    &&& i64::MIN <= t.date <= i64::MAX
    &&& i32::MIN <= t.vin_index <= i32::MAX
}

/// Law: an amount's record deserializes back to the amount itself,
/// field for field.
pub proof fn lemma_amount_record_round_trip(t: TransactionAmountView)
    requires
        wf_amount(t),
    ensures
        amount_of_record(amount_record(t)) == Some(t),
{
    reveal_strlit("amount");
    reveal_strlit("address_hash");
    reveal_strlit("transaction_hash");
    reveal_strlit("index");
    reveal_strlit("date");
    reveal_strlit("vin_index");
    reveal_strlit("vin_hash");
    let f = amount_record(t)->Object_0;
    let f1 = f.drop_first();
    let f2 = f1.drop_first();
    let f3 = f2.drop_first();
    let f4 = f3.drop_first();
    let f5 = f4.drop_first();
    let f6 = f5.drop_first();
    assert(f.len() == 7);
    assert(f1.len() == 6 && f1[0] == f[1] && f1[1] == f[2] && f1[2] == f[3] && f1[3] == f[4]
        && f1[4] == f[5] && f1[5] == f[6]);
    assert(f2.len() == 5 && f2[0] == f[2] && f2[1] == f[3] && f2[2] == f[4] && f2[3] == f[5]
        && f2[4] == f[6]);
    assert(f3.len() == 4 && f3[0] == f[3] && f3[1] == f[4] && f3[2] == f[5] && f3[3] == f[6]);
    assert(f4.len() == 3 && f4[0] == f[4] && f4[1] == f[5] && f4[2] == f[6]);
    assert(f5.len() == 2 && f5[0] == f[5] && f5[1] == f[6]);
    assert(f6.len() == 1 && f6[0] == f[6]);
    assert("amount"@.len() == 6);
    assert("address_hash"@.len() == 12);
    assert("transaction_hash"@.len() == 16);
    assert("index"@.len() == 5);
    assert("date"@.len() == 4);
    assert("vin_index"@.len() == 9);
    assert("vin_hash"@.len() == 8);
    assert(json::spec_lookup(f, "amount"@) == Some(JsonV::Int(t.amount)));
    assert(json::spec_lookup(f1, "address_hash"@) == Some(JsonV::Str(t.address_hash)));
    assert(json::spec_lookup(f, "address_hash"@) == json::spec_lookup(f1, "address_hash"@));
    assert(json::spec_lookup(f2, "transaction_hash"@) == Some(JsonV::Str(t.transaction_hash)));
    assert(json::spec_lookup(f1, "transaction_hash"@) == json::spec_lookup(
        f2,
        "transaction_hash"@,
    ));
    assert(json::spec_lookup(f, "transaction_hash"@) == json::spec_lookup(
        f1,
        "transaction_hash"@,
    ));
    assert(json::spec_lookup(f3, "index"@) == Some(JsonV::Int(t.index)));
    assert(json::spec_lookup(f2, "index"@) == json::spec_lookup(f3, "index"@));
    assert(json::spec_lookup(f1, "index"@) == json::spec_lookup(f2, "index"@));
    assert(json::spec_lookup(f, "index"@) == json::spec_lookup(f1, "index"@));
    assert(json::spec_lookup(f4, "date"@) == Some(JsonV::Int(t.date)));
    assert(json::spec_lookup(f3, "date"@) == json::spec_lookup(f4, "date"@));
    assert(json::spec_lookup(f2, "date"@) == json::spec_lookup(f3, "date"@));
    assert(json::spec_lookup(f1, "date"@) == json::spec_lookup(f2, "date"@));
    assert(json::spec_lookup(f, "date"@) == json::spec_lookup(f1, "date"@));
    assert(json::spec_lookup(f5, "vin_index"@) == Some(JsonV::Int(t.vin_index)));
    assert(json::spec_lookup(f4, "vin_index"@) == json::spec_lookup(f5, "vin_index"@));
    assert(json::spec_lookup(f3, "vin_index"@) == json::spec_lookup(f4, "vin_index"@));
    assert(json::spec_lookup(f2, "vin_index"@) == json::spec_lookup(f3, "vin_index"@));
    assert(json::spec_lookup(f1, "vin_index"@) == json::spec_lookup(f2, "vin_index"@));
    assert(json::spec_lookup(f, "vin_index"@) == json::spec_lookup(f1, "vin_index"@));
    assert(json::spec_lookup(f6, "vin_hash"@) == Some(match t.vin_hash {
        Some(h) => JsonV::Str(h),
        None => JsonV::Null,
    }));
    assert(json::spec_lookup(f5, "vin_hash"@) == json::spec_lookup(f6, "vin_hash"@));
    assert(json::spec_lookup(f4, "vin_hash"@) == json::spec_lookup(f5, "vin_hash"@));
    assert(json::spec_lookup(f3, "vin_hash"@) == json::spec_lookup(f4, "vin_hash"@));
    assert(json::spec_lookup(f2, "vin_hash"@) == json::spec_lookup(f3, "vin_hash"@));
    assert(json::spec_lookup(f1, "vin_hash"@) == json::spec_lookup(f2, "vin_hash"@));
    assert(json::spec_lookup(f, "vin_hash"@) == json::spec_lookup(f1, "vin_hash"@));
    assert(amount_of_record(amount_record(t)) == Some(t)) by {
        assert(match amount_of_record(amount_record(t)) {
            Some(u) => u =~= t,
            None => false,
        });
    }
}


/// The records of a sequence of amounts, element by element.
pub open spec fn amount_records(s: Seq<TransactionAmountView>) -> Seq<JsonV>
    decreases s.len(),
{
    if s.len() == 0 {
        Seq::empty()
    } else {
        amount_records(s.drop_last()).push(amount_record(s.last()))
    }
}

/// The amounts a sequence of records denotes: all of them or none.
pub open spec fn amounts_of_records(s: Seq<JsonV>) -> Option<Seq<TransactionAmountView>>
    decreases s.len(),
{
    if s.len() == 0 {
        Some(Seq::empty())
    } else {
        match (amounts_of_records(s.drop_last()), amount_of_record(s.last())) {
            (Some(rest), Some(t)) => Some(rest.push(t)),
            _ => None,
        }
    }
}

/// Whether every amount model in `s` is realizable.
pub open spec fn wf_amounts(s: Seq<TransactionAmountView>) -> bool {
    forall|i: int| 0 <= i < s.len() ==> wf_amount(#[trigger] s[i])
}

/// Law: a sequence of amount records deserializes back to the amounts
/// themselves.
pub proof fn lemma_amount_records_round_trip(s: Seq<TransactionAmountView>)
    requires
        wf_amounts(s),
    ensures
        amounts_of_records(amount_records(s)) == Some(s),
    decreases s.len(),
{
    if s.len() == 0 {
        assert(amount_records(s).len() == 0);
    } else {
        assert(wf_amounts(s.drop_last()));
        lemma_amount_records_round_trip(s.drop_last());
        lemma_amount_record_round_trip(s.last());
        assert(amount_records(s).drop_last() == amount_records(s.drop_last()));
        assert(amount_records(s).last() == amount_record(s.last()));
        assert(s.drop_last().push(s.last()) =~= s);
    }
}

proof fn lemma_amount_records_take_step(s: Seq<TransactionAmountView>, i: int)
    requires
        0 <= i < s.len(),
    ensures
        amount_records(s.take(i + 1)) == amount_records(s.take(i)).push(amount_record(s[i])),
{
    assert(s.take(i + 1).drop_last() =~= s.take(i));
    assert(s.take(i + 1).last() == s[i]);
}

proof fn lemma_amounts_of_records_fails(s: Seq<JsonV>, i: int)
    requires
        0 <= i < s.len(),
        amount_of_record(s[i]) is None,
    ensures
        amounts_of_records(s) is None,
    decreases s.len(),
{
    if i == s.len() - 1 {
    } else {
        lemma_amounts_of_records_fails(s.drop_last(), i);
    }
}

proof fn lemma_amounts_of_records_take_step(s: Seq<JsonV>, i: int)
    requires
        0 <= i < s.len(),
    ensures
        amounts_of_records(s.take(i + 1)) == match (
            amounts_of_records(s.take(i)),
            amount_of_record(s[i]),
        ) {
            (Some(rest), Some(t)) => Some(rest.push(t)),
            _ => None::<Seq<TransactionAmountView>>,
        },
{
    assert(s.take(i + 1).drop_last() =~= s.take(i));
    assert(s.take(i + 1).last() == s[i]);
}

/// Serializes a sequence of owned amounts to their records.
pub(crate) fn amounts_to_records(amounts: &Vec<TransactionAmount>) -> (r: Vec<JsonValue>)
    ensures
        json::json_seq_view(r@) == amount_records(amount_views(amounts@)),
{
    let ghost av = amount_views(amounts@);
    let mut out: Vec<JsonValue> = Vec::new();
    proof {
        assert(av.take(0) =~= Seq::<TransactionAmountView>::empty());
    }
    let mut i: usize = 0;
    while i < amounts.len()
        invariant
            0 <= i <= amounts.len(),
            av == amount_views(amounts@),
            av.len() == amounts.len(),
            json::json_seq_view(out@) == amount_records(av.take(i as int)),
        decreases amounts.len() - i,
    {
        let rec = amounts[i].to_record();
        let ghost prev = out@;
        out.push(rec);
        proof {
            assert(out@.drop_last() =~= prev);
            assert(av[i as int] == amounts@[i as int]@);
            lemma_amount_records_take_step(av, i as int);
        }
        i += 1;
    }
    proof {
        assert(av.take(av.len() as int) =~= av);
    }
    out
}

/// Deserializes a sequence of amount records, refusing the whole
/// sequence when any element is malformed.
pub(crate) fn amounts_from_records(items: &Vec<JsonValue>) -> (r: Result<Vec<TransactionAmount>, FormatError>)
    ensures
        match r {
            Ok(ts) => amounts_of_records(json::json_seq_view(items@)) == Some(amount_views(ts@)),
            Err(_) => amounts_of_records(json::json_seq_view(items@)) is None,
        },
{
    let ghost jv = json::json_seq_view(items@);
    proof {
        json::lemma_json_seq_view(items@);
        assert(jv.take(0) =~= Seq::<JsonV>::empty());
        assert(amount_views(Seq::<TransactionAmount>::empty())
            =~= Seq::<TransactionAmountView>::empty());
    }
    let mut out: Vec<TransactionAmount> = Vec::new();
    let mut i: usize = 0;
    while i < items.len()
        invariant
            0 <= i <= items.len(),
            jv == json::json_seq_view(items@),
            jv.len() == items.len(),
            forall|j: int| 0 <= j < items@.len() ==> jv[j] == (#[trigger] items@[j])@,
            amounts_of_records(jv.take(i as int)) == Some(amount_views(out@)),
        decreases items.len() - i,
    {
        let t = match TransactionAmount::from_record(&items[i]) {
            Ok(t) => t,
            Err(e) => {
                proof {
                    lemma_amounts_of_records_fails(jv, i as int);
                }
                return Err(e);
            },
        };
        let ghost prev = out@;
        out.push(t);
        proof {
            assert(out@.drop_last() =~= prev);
            assert(amount_views(out@) =~= amount_views(prev).push(out@.last()@));
            lemma_amounts_of_records_take_step(jv, i as int);
        }
        i += 1;
    }
    proof {
        assert(jv.take(jv.len() as int) =~= jv);
    }
    Ok(out)
}


/// The interchange record of a transaction: its scalar fields in
/// canonical order, then the owned amounts under the
/// `transaction_amount_collection` key.
pub open spec fn transaction_record(t: TransactionView) -> JsonV {
    JsonV::Object(
        seq![
            ("hash"@, JsonV::Str(t.hash)),
            ("date"@, JsonV::Int(t.date)),
            ("is_coinbase"@, JsonV::Bool(t.is_coinbase)),
            ("block_hash"@, JsonV::Str(t.block_hash)),
            ("block_height"@, JsonV::Int(t.block_height)),
            ("last_updated"@, JsonV::Str(t.last_updated)),
            ("transaction_amount_collection"@, JsonV::Array(amount_records(t.transaction_amounts))),
        ],
    )
}

/// The backend write projection of a transaction: the full record with
/// the nested amount collection stripped, and nothing else.
pub open spec fn transaction_backend_record(t: TransactionView) -> JsonV {
    JsonV::Object(
        seq![
            ("hash"@, JsonV::Str(t.hash)),
            ("date"@, JsonV::Int(t.date)),
            ("is_coinbase"@, JsonV::Bool(t.is_coinbase)),
            ("block_hash"@, JsonV::Str(t.block_hash)),
            ("block_height"@, JsonV::Int(t.block_height)),
            ("last_updated"@, JsonV::Str(t.last_updated)),
        ],
    )
}

/// The transaction a record denotes: every scalar field required; the
/// amounts read from `transaction_amount_collection`, or from the
/// in-memory field name `transaction_amounts`, or defaulted to the
/// empty sequence when both are absent; unknown fields ignored.
pub open spec fn transaction_of_record(v: JsonV) -> Option<TransactionView> {
    match v {
        JsonV::Object(f) => {
            let amounts_field = if json::spec_lookup(f, "transaction_amount_collection"@) is Some {
                json::spec_lookup(f, "transaction_amount_collection"@)
            } else {
                json::spec_lookup(f, "transaction_amounts"@)
            };
            let amounts = match amounts_field {
                Some(JsonV::Array(items)) => amounts_of_records(items),
                Some(_) => None,
                None => Some(Seq::<TransactionAmountView>::empty()),
            };
            match (json::spec_get_str(f, "hash"@), json::spec_get_int(f, "date"@), json::spec_get_bool(f, "is_coinbase"@), json::spec_get_str(f, "block_hash"@), json::spec_get_int(f, "block_height"@), json::spec_get_str(f, "last_updated"@), amounts) {
                (
                    Some(hash),
                    Some(date),
                    Some(is_coinbase),
                    Some(block_hash),
                    Some(block_height),
                    Some(last_updated),
                    Some(transaction_amounts),
                ) => Some(
                    TransactionView {
                        hash,
                        date,
                        is_coinbase,
                        block_hash,
                        block_height,
                        last_updated,
                        transaction_amounts,
                    },
                ),
                _ => None,
            }
        },
        _ => None,
    }
}

/// Whether a transaction model is realizable: each numeric field fits
/// its machine integer and every owned amount is realizable.
pub open spec fn wf_transaction(t: TransactionView) -> bool {
    &&& i64::MIN <= t.date <= i64::MAX
    &&& i64::MIN <= t.block_height <= i64::MAX
    &&& wf_amounts(t.transaction_amounts)
}

/// Law: a transaction's record deserializes back to the transaction
/// itself, owned amounts included.
pub proof fn lemma_transaction_record_round_trip(t: TransactionView)
    requires
        wf_transaction(t),
    ensures
        transaction_of_record(transaction_record(t)) == Some(t),
{
    let f = transaction_record(t)->Object_0;
    let f1 = f.drop_first();
    let f2 = f1.drop_first();
    let f3 = f2.drop_first();
    let f4 = f3.drop_first();
    let f5 = f4.drop_first();
    let f6 = f5.drop_first();
    assert(f.len() == 7);
    assert(f1.len() == 6 && f1[0] == f[1] && f1[1] == f[2] && f1[2] == f[3] && f1[3] == f[4] && f1[4] == f[5] && f1[5] == f[6]);
    assert(f2.len() == 5 && f2[0] == f[2] && f2[1] == f[3] && f2[2] == f[4] && f2[3] == f[5] && f2[4] == f[6]);
    assert(f3.len() == 4 && f3[0] == f[3] && f3[1] == f[4] && f3[2] == f[5] && f3[3] == f[6]);
    assert(f4.len() == 3 && f4[0] == f[4] && f4[1] == f[5] && f4[2] == f[6]);
    assert(f5.len() == 2 && f5[0] == f[5] && f5[1] == f[6]);
    assert(f6.len() == 1 && f6[0] == f[6]);
    reveal_strlit("hash");
    reveal_strlit("date");
    reveal_strlit("is_coinbase");
    reveal_strlit("block_hash");
    reveal_strlit("block_height");
    reveal_strlit("last_updated");
    reveal_strlit("transaction_amount_collection");
    assert("hash"@.len() == 4);
    assert("date"@.len() == 4);
    assert("is_coinbase"@.len() == 11);
    assert("block_hash"@.len() == 10);
    assert("block_height"@.len() == 12);
    assert("last_updated"@.len() == 12);
    assert("transaction_amount_collection"@.len() == 29);
    assert("block_height"@[0] == 'b');
    assert("date"@[0] == 'd');
    assert("hash"@[0] == 'h');
    assert("last_updated"@[0] == 'l');
    assert(json::spec_lookup(f, "hash"@) == Some(JsonV::Str(t.hash)));
    assert(json::spec_lookup(f1, "date"@) == Some(JsonV::Int(t.date)));
    assert(json::spec_lookup(f, "date"@) == json::spec_lookup(f1, "date"@));
    assert(json::spec_lookup(f2, "is_coinbase"@) == Some(JsonV::Bool(t.is_coinbase)));
    assert(json::spec_lookup(f1, "is_coinbase"@) == json::spec_lookup(f2, "is_coinbase"@));
    assert(json::spec_lookup(f, "is_coinbase"@) == json::spec_lookup(f1, "is_coinbase"@));
    assert(json::spec_lookup(f3, "block_hash"@) == Some(JsonV::Str(t.block_hash)));
    assert(json::spec_lookup(f2, "block_hash"@) == json::spec_lookup(f3, "block_hash"@));
    assert(json::spec_lookup(f1, "block_hash"@) == json::spec_lookup(f2, "block_hash"@));
    assert(json::spec_lookup(f, "block_hash"@) == json::spec_lookup(f1, "block_hash"@));
    assert(json::spec_lookup(f4, "block_height"@) == Some(JsonV::Int(t.block_height)));
    assert(json::spec_lookup(f3, "block_height"@) == json::spec_lookup(f4, "block_height"@));
    assert(json::spec_lookup(f2, "block_height"@) == json::spec_lookup(f3, "block_height"@));
    assert(json::spec_lookup(f1, "block_height"@) == json::spec_lookup(f2, "block_height"@));
    assert(json::spec_lookup(f, "block_height"@) == json::spec_lookup(f1, "block_height"@));
    assert(json::spec_lookup(f5, "last_updated"@) == Some(JsonV::Str(t.last_updated)));
    assert(json::spec_lookup(f4, "last_updated"@) == json::spec_lookup(f5, "last_updated"@));
    assert(json::spec_lookup(f3, "last_updated"@) == json::spec_lookup(f4, "last_updated"@));
    assert(json::spec_lookup(f2, "last_updated"@) == json::spec_lookup(f3, "last_updated"@));
    assert(json::spec_lookup(f1, "last_updated"@) == json::spec_lookup(f2, "last_updated"@));
    assert(json::spec_lookup(f, "last_updated"@) == json::spec_lookup(f1, "last_updated"@));
    assert(json::spec_lookup(f6, "transaction_amount_collection"@) == Some(JsonV::Array(amount_records(t.transaction_amounts))));
    assert(json::spec_lookup(f5, "transaction_amount_collection"@) == json::spec_lookup(f6, "transaction_amount_collection"@));
    assert(json::spec_lookup(f4, "transaction_amount_collection"@) == json::spec_lookup(f5, "transaction_amount_collection"@));
    assert(json::spec_lookup(f3, "transaction_amount_collection"@) == json::spec_lookup(f4, "transaction_amount_collection"@));
    assert(json::spec_lookup(f2, "transaction_amount_collection"@) == json::spec_lookup(f3, "transaction_amount_collection"@));
    assert(json::spec_lookup(f1, "transaction_amount_collection"@) == json::spec_lookup(f2, "transaction_amount_collection"@));
    assert(json::spec_lookup(f, "transaction_amount_collection"@) == json::spec_lookup(f1, "transaction_amount_collection"@));
    lemma_amount_records_round_trip(t.transaction_amounts);
    assert(transaction_of_record(transaction_record(t)) == Some(t)) by {
        assert(match transaction_of_record(transaction_record(t)) {
            Some(u) => u =~= t,
            None => false,
        });
    }
}


impl Transaction {
    /// Serializes this transaction to its interchange record.
    pub fn to_record(&self) -> (r: JsonValue)
        ensures
            r@ == transaction_record(self@),
    {
        let amounts = amounts_to_records(&self.transaction_amounts);
        let mut fields: Vec<(String, JsonValue)> = Vec::new();
        fields.push(("hash".to_owned(), JsonValue::Str(self.hash.clone())));
        fields.push(("date".to_owned(), JsonValue::Int(self.date)));
        fields.push(("is_coinbase".to_owned(), JsonValue::Bool(self.is_coinbase)));
        fields.push(("block_hash".to_owned(), JsonValue::Str(self.block_hash.clone())));
        fields.push(("block_height".to_owned(), JsonValue::Int(self.block_height)));
        fields.push(("last_updated".to_owned(), JsonValue::Str(self.last_updated.clone())));
        fields.push(("transaction_amount_collection".to_owned(), JsonValue::Array(amounts)));
        let ghost gf = fields@;
        let r = JsonValue::Object(fields);
        proof {
            json::lemma_json_fields_view(gf);
            assert(gf.len() == 7);
            assert(gf[0].0@ == "hash"@);
            assert(gf[1].0@ == "date"@);
            assert(gf[2].0@ == "is_coinbase"@);
            assert(gf[3].0@ == "block_hash"@);
            assert(gf[4].0@ == "block_height"@);
            assert(gf[5].0@ == "last_updated"@);
            assert(gf[6].0@ == "transaction_amount_collection"@);
            assert(json::json_fields_view(gf) =~= transaction_record(self@)->Object_0);
            assert(r@ == transaction_record(self@));
        }
        r
    }

    /// The backend write projection: the record without the nested
    /// amount collection.
    pub fn graphql_inputs(&self) -> (r: JsonValue)
        ensures
            r@ == transaction_backend_record(self@),
    {
        let mut fields: Vec<(String, JsonValue)> = Vec::new();
        fields.push(("hash".to_owned(), JsonValue::Str(self.hash.clone())));
        fields.push(("date".to_owned(), JsonValue::Int(self.date)));
        fields.push(("is_coinbase".to_owned(), JsonValue::Bool(self.is_coinbase)));
        fields.push(("block_hash".to_owned(), JsonValue::Str(self.block_hash.clone())));
        fields.push(("block_height".to_owned(), JsonValue::Int(self.block_height)));
        fields.push(("last_updated".to_owned(), JsonValue::Str(self.last_updated.clone())));
        let ghost gf = fields@;
        let r = JsonValue::Object(fields);
        proof {
            json::lemma_json_fields_view(gf);
            assert(gf.len() == 6);
            assert(gf[0].0@ == "hash"@);
            assert(gf[1].0@ == "date"@);
            assert(gf[2].0@ == "is_coinbase"@);
            assert(gf[3].0@ == "block_hash"@);
            assert(gf[4].0@ == "block_height"@);
            assert(gf[5].0@ == "last_updated"@);
            assert(json::json_fields_view(gf) =~= transaction_backend_record(self@)->Object_0);
            assert(r@ == transaction_backend_record(self@));
        }
        r
    }

    /// Deserializes a transaction from its interchange record.
    pub fn from_record(v: &JsonValue) -> (r: Result<Transaction, FormatError>)
        ensures
            match r {
                Ok(t) => transaction_of_record(v@) == Some(t@),
                Err(_) => transaction_of_record(v@) is None,
            },
    {
        let fields = match v {
            JsonValue::Object(f) => f,
            _ => {
                return Err(FormatError);
            },
        };
        let hash = match json::get_string(fields, "hash") {
            Ok(s) => s,
            Err(e) => {
                return Err(e);
            },
        };
        let date = match json::get_i64(fields, "date") {
            Ok(n) => n,
            Err(e) => {
                return Err(e);
            },
        };
        let is_coinbase = match json::get_bool(fields, "is_coinbase") {
            Ok(b) => b,
            Err(e) => {
                return Err(e);
            },
        };
        let block_hash = match json::get_string(fields, "block_hash") {
            Ok(s) => s,
            Err(e) => {
                return Err(e);
            },
        };
        let block_height = match json::get_i64(fields, "block_height") {
            Ok(n) => n,
            Err(e) => {
                return Err(e);
            },
        };
        let last_updated = match json::get_string(fields, "last_updated") {
            Ok(s) => s,
            Err(e) => {
                return Err(e);
            },
        };
        let amounts_value = match json::lookup(fields, "transaction_amount_collection") {
            Some(v2) => Some(v2),
            None => json::lookup(fields, "transaction_amounts"),
        };
        let transaction_amounts = match amounts_value {
            Some(JsonValue::Array(items)) => match amounts_from_records(items) {
                Ok(ts) => ts,
                Err(e) => {
                    return Err(e);
                },
            },
            Some(_) => {
                return Err(FormatError);
            },
            None => Vec::new(),
        };
        proof {
            assert(amount_views(Seq::<TransactionAmount>::empty())
                =~= Seq::<TransactionAmountView>::empty());
        }
        Ok(
            Transaction {
                hash,
                date,
                is_coinbase,
                block_hash,
                block_height,
                last_updated,
                transaction_amounts,
            },
        )
    }

    /// The field-selection text a backend read of transactions asks
    /// for.
    pub fn fetch_fields() -> (r: String)
        ensures
            r@
                == "{ hash, is_coinbase, date, block_hash, block_height, last_updated, transaction_amount_collection { amount, address_hash, transaction_hash, date, index, last_updated } }"@,
    {
        "{ hash, is_coinbase, date, block_hash, block_height, last_updated, transaction_amount_collection { amount, address_hash, transaction_hash, date, index, last_updated } }".to_owned()
    }

    /// The insert-mutation text for a transaction write, naming the
    /// given input parameter.
    pub fn insert_query(&self, param: String) -> (r: String)
        ensures
            r@ == "create_transaction (input: $"@ + param@ + " ){ hash }"@,
    {
        let mut s = String::from_str("create_transaction (input: $");
        s.append(param.as_str());
        s.append(" ){ hash }");
        s
    }

    /// The backend input-type name of a transaction write.
    pub fn input_type(&self) -> (r: String)
        ensures
            r@ == "transactionInput"@,
    {
        "transactionInput".to_owned()
    }

    /// The delete-key expression of this transaction: its primary key.
    pub fn delete_input(&self) -> (r: String)
        ensures
            r@ == "hash: \""@ + self@.hash + "\""@,
    {
        let mut s = String::from_str("hash: \"");
        s.append(self.hash.as_str());
        s.append("\"");
        s
    }
}


/// The records of a sequence of transactions, element by element.
pub open spec fn transaction_records(s: Seq<TransactionView>) -> Seq<JsonV>
    decreases s.len(),
{
    if s.len() == 0 {
        Seq::empty()
    } else {
        transaction_records(s.drop_last()).push(transaction_record(s.last()))
    }
}

/// The transactions a sequence of records denotes: all of them or
/// none.
pub open spec fn transactions_of_records(s: Seq<JsonV>) -> Option<Seq<TransactionView>>
    decreases s.len(),
{
    if s.len() == 0 {
        Some(Seq::empty())
    } else {
        match (transactions_of_records(s.drop_last()), transaction_of_record(s.last())) {
            (Some(rest), Some(t)) => Some(rest.push(t)),
            _ => None,
        }
    }
}

/// Whether every transaction model in `s` is realizable.
pub open spec fn wf_transactions(s: Seq<TransactionView>) -> bool {
    forall|i: int| 0 <= i < s.len() ==> wf_transaction(#[trigger] s[i])
}

/// Law: a sequence of transaction records deserializes back to the
/// transactions themselves.
pub proof fn lemma_transaction_records_round_trip(s: Seq<TransactionView>)
    requires
        wf_transactions(s),
    ensures
        transactions_of_records(transaction_records(s)) == Some(s),
    decreases s.len(),
{
    if s.len() == 0 {
        assert(transaction_records(s).len() == 0);
    } else {
        assert(wf_transactions(s.drop_last()));
        lemma_transaction_records_round_trip(s.drop_last());
        lemma_transaction_record_round_trip(s.last());
        assert(transaction_records(s).drop_last() == transaction_records(s.drop_last()));
        assert(transaction_records(s).last() == transaction_record(s.last()));
        assert(s.drop_last().push(s.last()) =~= s);
    }
}

proof fn lemma_transaction_records_take_step(s: Seq<TransactionView>, i: int)
    requires
        0 <= i < s.len(),
    ensures
        transaction_records(s.take(i + 1)) == transaction_records(s.take(i)).push(
            transaction_record(s[i]),
        ),
{
    assert(s.take(i + 1).drop_last() =~= s.take(i));
    assert(s.take(i + 1).last() == s[i]);
}

proof fn lemma_transactions_of_records_fails(s: Seq<JsonV>, i: int)
    requires
        0 <= i < s.len(),
        transaction_of_record(s[i]) is None,
    ensures
        transactions_of_records(s) is None,
    decreases s.len(),
{
    if i == s.len() - 1 {
    } else {
        lemma_transactions_of_records_fails(s.drop_last(), i);
    }
}

proof fn lemma_transactions_of_records_take_step(s: Seq<JsonV>, i: int)
    requires
        0 <= i < s.len(),
    ensures
        transactions_of_records(s.take(i + 1)) == match (
            transactions_of_records(s.take(i)),
            transaction_of_record(s[i]),
        ) {
            (Some(rest), Some(t)) => Some(rest.push(t)),
            _ => None::<Seq<TransactionView>>,
        },
{
    assert(s.take(i + 1).drop_last() =~= s.take(i));
    assert(s.take(i + 1).last() == s[i]);
}

/// Serializes a sequence of owned transactions to their records.
pub(crate) fn transactions_to_records(transactions: &Vec<Transaction>) -> (r: Vec<JsonValue>)
    ensures
        json::json_seq_view(r@) == transaction_records(transaction_views(transactions@)),
{
    let ghost tv = transaction_views(transactions@);
    let mut out: Vec<JsonValue> = Vec::new();
    proof {
        assert(tv.take(0) =~= Seq::<TransactionView>::empty());
    }
    let mut i: usize = 0;
    while i < transactions.len()
        invariant
            0 <= i <= transactions.len(),
            tv == transaction_views(transactions@),
            tv.len() == transactions.len(),
            json::json_seq_view(out@) == transaction_records(tv.take(i as int)),
        decreases transactions.len() - i,
    {
        let rec = transactions[i].to_record();
        let ghost prev = out@;
        out.push(rec);
        proof {
            assert(out@.drop_last() =~= prev);
            assert(tv[i as int] == transactions@[i as int]@);
            lemma_transaction_records_take_step(tv, i as int);
        }
        i += 1;
    }
    proof {
        assert(tv.take(tv.len() as int) =~= tv);
    }
    out
}

/// Deserializes a sequence of transaction records, refusing the whole
/// sequence when any element is malformed.
pub(crate) fn transactions_from_records(items: &Vec<JsonValue>) -> (r: Result<
    Vec<Transaction>,
    FormatError,
>)
    ensures
        match r {
            Ok(ts) => transactions_of_records(json::json_seq_view(items@)) == Some(
                transaction_views(ts@),
            ),
            Err(_) => transactions_of_records(json::json_seq_view(items@)) is None,
        },
{
    let ghost jv = json::json_seq_view(items@);
    proof {
        json::lemma_json_seq_view(items@);
        assert(jv.take(0) =~= Seq::<JsonV>::empty());
        assert(transaction_views(Seq::<Transaction>::empty()) =~= Seq::<TransactionView>::empty());
    }
    let mut out: Vec<Transaction> = Vec::new();
    let mut i: usize = 0;
    while i < items.len()
        invariant
            0 <= i <= items.len(),
            jv == json::json_seq_view(items@),
            jv.len() == items.len(),
            forall|j: int| 0 <= j < items@.len() ==> jv[j] == (#[trigger] items@[j])@,
            transactions_of_records(jv.take(i as int)) == Some(transaction_views(out@)),
        decreases items.len() - i,
    {
        let t = match Transaction::from_record(&items[i]) {
            Ok(t) => t,
            Err(e) => {
                proof {
                    lemma_transactions_of_records_fails(jv, i as int);
                }
                return Err(e);
            },
        };
        let ghost prev = out@;
        out.push(t);
        proof {
            assert(out@.drop_last() =~= prev);
            assert(transaction_views(out@) =~= transaction_views(prev).push(out@.last()@));
            lemma_transactions_of_records_take_step(jv, i as int);
        }
        i += 1;
    }
    proof {
        assert(jv.take(jv.len() as int) =~= jv);
    }
    Ok(out)
}


impl TransactionAmount {
    /// The backend write projection: an amount has no nested
    /// collection, so the projection is the full record.
    pub fn graphql_inputs(&self) -> (r: JsonValue)
        ensures
            r@ == amount_record(self@),
    {
        self.to_record()
    }

    /// The field-selection text a backend read of amounts asks for.
    pub fn fetch_fields() -> (r: String)
        ensures
            r@
                == "{ amount, address_hash, transaction_hash, date, index, vin_index, vin_hash }"@,
    {
        "{ amount, address_hash, transaction_hash, date, index, vin_index, vin_hash }".to_owned()
    }

    /// The insert-mutation text for an amount write, naming the given
    /// input parameter.
    pub fn insert_query(&self, param: String) -> (r: String)
        ensures
            r@ == "create_transaction_amount (input: $"@ + param@
                + " ){ transaction_hash, index, vin_index }"@,
    {
        let mut s = String::from_str("create_transaction_amount (input: $");
        s.append(param.as_str());
        s.append(" ){ transaction_hash, index, vin_index }");
        s
    }

    /// The backend input-type name of an amount write.
    pub fn input_type(&self) -> (r: String)
        ensures
            r@ == "transaction_amountInput"@,
    {
        "transaction_amountInput".to_owned()
    }

    /// The delete-key expression of this amount: the composite of its
    /// owning transaction, output position and consumed-input position.
    pub fn delete_input(&self) -> (r: String)
        ensures
            r@ == "transaction_hash: \""@ + self@.transaction_hash + "\", index: \""@
                + crate::text::int_chars(self@.index) + "\", vin_index: \""@
                + crate::text::int_chars(self@.vin_index) + "\""@,
    {
        let mut s = String::from_str("transaction_hash: \"");
        s.append(self.transaction_hash.as_str());
        s.append("\", index: \"");
        let index_digits = crate::text::i64_to_string(self.index as i64);
        s.append(index_digits.as_str());
        s.append("\", vin_index: \"");
        let vin_digits = crate::text::i64_to_string(self.vin_index as i64);
        s.append(vin_digits.as_str());
        s.append("\"");
        s
    }
}

} // verus!
