//! Blocks of the indexed chain.

use vstd::prelude::*;
use crate::clock;
use crate::json;
use crate::json::{FormatError, JsonV, JsonValue};
use crate::transaction::{
    Transaction, TransactionView, transaction_records, transaction_views,
    transactions_from_records, transactions_of_records, transactions_to_records,
    lemma_transaction_records_round_trip, wf_transactions,
};

verus! {

/// Mathematical model of a [`Block`].
#[verifier::ext_equal]
pub ghost struct BlockView {
    pub hash: Seq<char>,
    pub date: int,
    pub height: int,
    pub is_final: bool,
    pub last_updated: Seq<char>,
    pub transactions: Seq<TransactionView>,
}

/// A block of the indexed chain, owning its transactions.  `hash` is
/// the immutable identity; `date` is in unix seconds; `is_final` turns
/// true once the block is considered immutable.
#[derive(Debug)]
pub struct Block {
    hash: String,
    date: i64,
    height: i64,
    is_final: bool,
    last_updated: String,
    transactions: Vec<Transaction>,
}

impl View for Block {
    type V = BlockView;

    closed spec fn view(&self) -> BlockView {
        BlockView {
            hash: self.hash@,
            date: self.date as int,
            height: self.height as int,
            is_final: self.is_final,
            last_updated: self.last_updated@,
            transactions: transaction_views(self.transactions@),
        }
    }
}

impl Block {
    /// An empty block with the given immutable identity; `is_final`
    /// starts false and `last_updated` is stamped from the clock.
    pub fn new(hash: String, date: i64, height: i64) -> (r: Self)
        ensures
            r@.hash == hash@,
            r@.date == date as int,
            r@.height == height as int,
            r@.is_final == false,
            r@.transactions == Seq::<TransactionView>::empty(),
    {
        Block {
            hash,
            date,
            height,
            is_final: false,
            last_updated: clock::now_rfc3339(),
            transactions: Vec::new(),
        }
    }

    pub fn hash(&self) -> (r: &String)
        ensures
            r@ == self@.hash,
    {
        &self.hash
    }

    pub fn date(&self) -> (r: i64)
        ensures
            r as int == self@.date,
    {
        self.date
    }

    pub fn height(&self) -> (r: i64)
        ensures
            r as int == self@.height,
    {
        self.height
    }

    pub fn is_final(&self) -> (r: bool)
        ensures
            r == self@.is_final,
    {
        self.is_final
    }

    pub fn last_updated(&self) -> (r: &String)
        ensures
            r@ == self@.last_updated,
    {
        &self.last_updated
    }

    pub fn transactions(&self) -> (r: &Vec<Transaction>)
        ensures
            transaction_views(r@) == self@.transactions,
    {
        &self.transactions
    }

    /// Mutable access to the owned transactions, for attaching new ones.
    pub fn transactions_mut(&mut self) -> (r: &mut Vec<Transaction>)
        ensures
            transaction_views((*r)@) == old(self)@.transactions,
            final(self)@ == (BlockView {
                transactions: transaction_views(final(r)@),
                ..old(self)@
            }),
    {
        &mut self.transactions
    }

    /// Replaces the owned transactions wholesale.
    pub fn set_transactions(&mut self, transactions: Vec<Transaction>)
        ensures
            final(self)@ == (BlockView {
                transactions: transaction_views(transactions@),
                ..old(self)@
            }),
    {
        self.transactions = transactions;
    }
}


/// The interchange record of a block: its scalar fields in canonical
/// order, then the owned transactions under the
/// `transaction_collection` key.
pub open spec fn block_record(b: BlockView) -> JsonV {
    JsonV::Object(
        seq![
            ("hash"@, JsonV::Str(b.hash)),
            ("date"@, JsonV::Int(b.date)),
            ("height"@, JsonV::Int(b.height)),
            ("is_final"@, JsonV::Bool(b.is_final)),
            ("last_updated"@, JsonV::Str(b.last_updated)),
            ("transaction_collection"@, JsonV::Array(transaction_records(b.transactions))),
        ],
    )
}

/// The backend write projection of a block: the full record with the
/// nested transaction collection stripped, and nothing else.
pub open spec fn block_backend_record(b: BlockView) -> JsonV {
    JsonV::Object(
        seq![
            ("hash"@, JsonV::Str(b.hash)),
            ("date"@, JsonV::Int(b.date)),
            ("height"@, JsonV::Int(b.height)),
            ("is_final"@, JsonV::Bool(b.is_final)),
            ("last_updated"@, JsonV::Str(b.last_updated)),
        ],
    )
}

/// The block a record denotes: the timestamp read from `date`, or
/// from the input alias `time` when `date` is absent; the transactions
/// read from `transaction_collection`, or from the in-memory field
/// name `transactions`, or defaulted to the empty sequence; every
/// other field required; unknown fields ignored.
pub open spec fn block_of_record(v: JsonV) -> Option<BlockView> {
    match v {
        JsonV::Object(f) => {
            let date_field = if json::spec_lookup(f, "date"@) is Some {
                json::spec_lookup(f, "date"@)
            } else {
                json::spec_lookup(f, "time"@)
            };
            let date = match date_field {
                Some(JsonV::Int(n)) => Some(n),
                _ => None,
            };
            let transactions_field = if json::spec_lookup(f, "transaction_collection"@) is Some {
                json::spec_lookup(f, "transaction_collection"@)
            } else {
                json::spec_lookup(f, "transactions"@)
            };
            let transactions = match transactions_field {
                Some(JsonV::Array(items)) => transactions_of_records(items),
                Some(_) => None,
                None => Some(Seq::<TransactionView>::empty()),
            };
            match (json::spec_get_str(f, "hash"@), date, json::spec_get_int(f, "height"@), json::spec_get_bool(f, "is_final"@), json::spec_get_str(f, "last_updated"@), transactions) {
                (
                    Some(hash),
                    Some(date),
                    Some(height),
                    Some(is_final),
                    Some(last_updated),
                    Some(transactions),
                ) => Some(BlockView { hash, date, height, is_final, last_updated, transactions }),
                _ => None,
            }
        },
        _ => None,
    }
}

/// Whether a block model is realizable: each numeric field fits its
/// machine integer and every owned transaction is realizable.
pub open spec fn wf_block(b: BlockView) -> bool {
    &&& i64::MIN <= b.date <= i64::MAX
    &&& i64::MIN <= b.height <= i64::MAX
    &&& wf_transactions(b.transactions)
}

/// Law: a block's record deserializes back to the block itself, owned
/// transactions and their amounts included.
pub proof fn lemma_block_record_round_trip(b: BlockView)
    requires
        wf_block(b),
    ensures
        block_of_record(block_record(b)) == Some(b),
{
    let f = block_record(b)->Object_0;
    let f1 = f.drop_first();
    let f2 = f1.drop_first();
    let f3 = f2.drop_first();
    let f4 = f3.drop_first();
    let f5 = f4.drop_first();
    assert(f.len() == 6);
    assert(f1.len() == 5 && f1[0] == f[1] && f1[1] == f[2] && f1[2] == f[3] && f1[3] == f[4] && f1[4] == f[5]);
    assert(f2.len() == 4 && f2[0] == f[2] && f2[1] == f[3] && f2[2] == f[4] && f2[3] == f[5]);
    assert(f3.len() == 3 && f3[0] == f[3] && f3[1] == f[4] && f3[2] == f[5]);
    assert(f4.len() == 2 && f4[0] == f[4] && f4[1] == f[5]);
    assert(f5.len() == 1 && f5[0] == f[5]);
    reveal_strlit("hash");
    reveal_strlit("date");
    reveal_strlit("height");
    reveal_strlit("is_final");
    reveal_strlit("last_updated");
    reveal_strlit("transaction_collection");
    assert("hash"@.len() == 4);
    assert("date"@.len() == 4);
    assert("height"@.len() == 6);
    assert("is_final"@.len() == 8);
    assert("last_updated"@.len() == 12);
    assert("transaction_collection"@.len() == 22);
    assert("date"@[0] == 'd');
    assert("hash"@[0] == 'h');
    assert(json::spec_lookup(f, "hash"@) == Some(JsonV::Str(b.hash)));
    assert(json::spec_lookup(f1, "date"@) == Some(JsonV::Int(b.date)));
    assert(json::spec_lookup(f, "date"@) == json::spec_lookup(f1, "date"@));
    assert(json::spec_lookup(f2, "height"@) == Some(JsonV::Int(b.height)));
    assert(json::spec_lookup(f1, "height"@) == json::spec_lookup(f2, "height"@));
    assert(json::spec_lookup(f, "height"@) == json::spec_lookup(f1, "height"@));
    assert(json::spec_lookup(f3, "is_final"@) == Some(JsonV::Bool(b.is_final)));
    assert(json::spec_lookup(f2, "is_final"@) == json::spec_lookup(f3, "is_final"@));
    assert(json::spec_lookup(f1, "is_final"@) == json::spec_lookup(f2, "is_final"@));
    assert(json::spec_lookup(f, "is_final"@) == json::spec_lookup(f1, "is_final"@));
    assert(json::spec_lookup(f4, "last_updated"@) == Some(JsonV::Str(b.last_updated)));
    assert(json::spec_lookup(f3, "last_updated"@) == json::spec_lookup(f4, "last_updated"@));
    assert(json::spec_lookup(f2, "last_updated"@) == json::spec_lookup(f3, "last_updated"@));
    assert(json::spec_lookup(f1, "last_updated"@) == json::spec_lookup(f2, "last_updated"@));
    assert(json::spec_lookup(f, "last_updated"@) == json::spec_lookup(f1, "last_updated"@));
    assert(json::spec_lookup(f5, "transaction_collection"@) == Some(JsonV::Array(transaction_records(b.transactions))));
    assert(json::spec_lookup(f4, "transaction_collection"@) == json::spec_lookup(f5, "transaction_collection"@));
    assert(json::spec_lookup(f3, "transaction_collection"@) == json::spec_lookup(f4, "transaction_collection"@));
    assert(json::spec_lookup(f2, "transaction_collection"@) == json::spec_lookup(f3, "transaction_collection"@));
    assert(json::spec_lookup(f1, "transaction_collection"@) == json::spec_lookup(f2, "transaction_collection"@));
    assert(json::spec_lookup(f, "transaction_collection"@) == json::spec_lookup(f1, "transaction_collection"@));
    lemma_transaction_records_round_trip(b.transactions);
    assert(block_of_record(block_record(b)) == Some(b)) by {
        assert(match block_of_record(block_record(b)) {
            Some(u) => u =~= b,
            None => false,
        });
    }
}

impl Block {
    /// Serializes this block to its interchange record.
    pub fn to_record(&self) -> (r: JsonValue)
        ensures
            r@ == block_record(self@),
    {
        let transactions = transactions_to_records(&self.transactions);
        let mut fields: Vec<(String, JsonValue)> = Vec::new();
        fields.push(("hash".to_owned(), JsonValue::Str(self.hash.clone())));
        fields.push(("date".to_owned(), JsonValue::Int(self.date)));
        fields.push(("height".to_owned(), JsonValue::Int(self.height)));
        fields.push(("is_final".to_owned(), JsonValue::Bool(self.is_final)));
        fields.push(("last_updated".to_owned(), JsonValue::Str(self.last_updated.clone())));
        fields.push(("transaction_collection".to_owned(), JsonValue::Array(transactions)));
        let ghost gf = fields@;
        let r = JsonValue::Object(fields);
        proof {
            json::lemma_json_fields_view(gf);
            assert(gf.len() == 6);
            assert(gf[0].0@ == "hash"@);
            assert(gf[1].0@ == "date"@);
            assert(gf[2].0@ == "height"@);
            assert(gf[3].0@ == "is_final"@);
            assert(gf[4].0@ == "last_updated"@);
            assert(gf[5].0@ == "transaction_collection"@);
            assert(json::json_fields_view(gf) =~= block_record(self@)->Object_0);
            assert(r@ == block_record(self@));
        }
        r
    }

    /// The backend write projection: the record without the nested
    /// transaction collection.
    pub fn graphql_inputs(&self) -> (r: JsonValue)
        ensures
            r@ == block_backend_record(self@),
    {
        let mut fields: Vec<(String, JsonValue)> = Vec::new();
        fields.push(("hash".to_owned(), JsonValue::Str(self.hash.clone())));
        fields.push(("date".to_owned(), JsonValue::Int(self.date)));
        fields.push(("height".to_owned(), JsonValue::Int(self.height)));
        fields.push(("is_final".to_owned(), JsonValue::Bool(self.is_final)));
        fields.push(("last_updated".to_owned(), JsonValue::Str(self.last_updated.clone())));
        let ghost gf = fields@;
        let r = JsonValue::Object(fields);
        proof {
            json::lemma_json_fields_view(gf);
            assert(gf.len() == 5);
            assert(gf[0].0@ == "hash"@);
            assert(gf[1].0@ == "date"@);
            assert(gf[2].0@ == "height"@);
            assert(gf[3].0@ == "is_final"@);
            assert(gf[4].0@ == "last_updated"@);
            assert(json::json_fields_view(gf) =~= block_backend_record(self@)->Object_0);
            assert(r@ == block_backend_record(self@));
        }
        r
    }

    /// Deserializes a block from its interchange record.
    pub fn from_record(v: &JsonValue) -> (r: Result<Block, FormatError>)
        ensures
            match r {
                Ok(b) => block_of_record(v@) == Some(b@),
                Err(_) => block_of_record(v@) is None,
            },
    {
        let fields = match v {
            JsonValue::Object(f) => f,
            _ => {
                return Err(FormatError);
            },
        };
        let hash = match json::get_string(fields, "hash") {
            Ok(s) => s,
            Err(e) => {
                return Err(e);
            },
        };
        let date_value = match json::lookup(fields, "date") {
            Some(v2) => Some(v2),
            None => json::lookup(fields, "time"),
        };
        let date = match date_value {
            Some(JsonValue::Int(n)) => *n,
            _ => {
                return Err(FormatError);
            },
        };
        let height = match json::get_i64(fields, "height") {
            Ok(n) => n,
            Err(e) => {
                return Err(e);
            },
        };
        let is_final = match json::get_bool(fields, "is_final") {
            Ok(b) => b,
            Err(e) => {
                return Err(e);
            },
        };
        let last_updated = match json::get_string(fields, "last_updated") {
            Ok(s) => s,
            Err(e) => {
                return Err(e);
            },
        };
        let transactions_value = match json::lookup(fields, "transaction_collection") {
            Some(v2) => Some(v2),
            None => json::lookup(fields, "transactions"),
        };
        let transactions = match transactions_value {
            Some(JsonValue::Array(items)) => match transactions_from_records(items) {
                Ok(ts) => ts,
                Err(e) => {
                    return Err(e);
                },
            },
            Some(_) => {
                return Err(FormatError);
            },
            None => Vec::new(),
        };
        proof {
            assert(transaction_views(Seq::<Transaction>::empty())
                =~= Seq::<TransactionView>::empty());
        }
        Ok(Block { hash, date, height, is_final, last_updated, transactions })
    }

    /// The field-selection text a backend read of blocks asks for.
    pub fn fetch_fields() -> (r: String)
        ensures
            r@
                == "{ hash, date, height, is_final, last_updated, transaction_collection { hash, is_coinbase, date, block_hash, block_height, last_updated, transaction_amount_collection { amount, address_hash, transaction_hash, date, index, vin_index, vin_hash } } }"@,
    {
        "{ hash, date, height, is_final, last_updated, transaction_collection { hash, is_coinbase, date, block_hash, block_height, last_updated, transaction_amount_collection { amount, address_hash, transaction_hash, date, index, vin_index, vin_hash } } }".to_owned()
    }

    /// The insert-mutation text for a block write, naming the given
    /// input parameter.
    pub fn insert_query(&self, param: String) -> (r: String)
        ensures
            r@ == "create_blocks (input: $"@ + param@ + " ){ hash }"@,
    {
        let mut s = String::from_str("create_blocks (input: $");
        s.append(param.as_str());
        s.append(" ){ hash }");
        s
    }

    /// The backend input-type name of a block write.
    pub fn input_type(&self) -> (r: String)
        ensures
            r@ == "blocksInput"@,
    {
        "blocksInput".to_owned()
    }

    /// The delete-key expression of this block: its primary key.
    pub fn delete_input(&self) -> (r: String)
        ensures
            r@ == "hash: \""@ + self@.hash + "\""@,
    {
        let mut s = String::from_str("hash: \"");
        s.append(self.hash.as_str());
        s.append("\"");
        s
    }
}

} // verus!
