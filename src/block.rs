use crate::json::{int_text, push_decimal, push_int, quoted};
use crate::outside::{json_string, sha256_hex, sha256_hex_of, unix_now};
use crate::pow::meets_prefix;
use vstd::prelude::*;
use vstd::string::*;

verus! {

/// The hash prefix that a block must show to count as mined, unless a caller
/// asks for another.
pub const PREFIX: &'static str = "00";

/// The details of the placeholder transaction that the genesis block carries.
pub const GENESIS_DETAILS: &'static str = "This is a dummy transaction as the genesis block has no transactions";

pub struct Transaction {
    pub transaction_id: String,
    pub transaction_timestamp: i64,
    pub transaction_details: String,
}

pub struct Block {
    pub block_number: u64,
    pub block_timestamp: i64,
    pub block_nonce: u64,
    pub transaction_list: Vec<Transaction>,
    pub previous_block_hash: String,
}

/// The JSON object of a transaction, fields in declaration order.
pub open spec fn transaction_json(t: Transaction) -> Seq<char> {
    "{\"transaction_id\":"@ + quoted(t.transaction_id@) + ",\"transaction_timestamp\":"@
        + int_text(t.transaction_timestamp as int) + ",\"transaction_details\":"@
        + quoted(t.transaction_details@) + "}"@
}

/// The comma-separated JSON objects of a list of transactions.
pub open spec fn transactions_json(ts: Seq<Transaction>) -> Seq<char>
    decreases ts.len(),
{
    if ts.len() == 0 {
        Seq::<char>::empty()
    } else if ts.len() == 1 {
        transaction_json(ts[0])
    } else {
        transactions_json(ts.drop_last()) + ","@ + transaction_json(ts.last())
    }
}

/// The JSON object of a block: every field, in declaration order, the
/// transactions in list order.
pub open spec fn block_json(b: Block) -> Seq<char> {
    "{\"block_number\":"@ + int_text(b.block_number as int) + ",\"block_timestamp\":"@
        + int_text(b.block_timestamp as int) + ",\"block_nonce\":"@
        + int_text(b.block_nonce as int) + ",\"transaction_list\":["@
        + transactions_json(b.transaction_list@) + "],\"previous_block_hash\":"@
        + quoted(b.previous_block_hash@) + "}"@
}

/// The hash of a block: the hex SHA-256 digest of its JSON form.
pub open spec fn block_hash(b: Block) -> Seq<char> {
    sha256_hex_of(block_json(b))
}

/// The same block with another nonce.
pub open spec fn with_nonce(b: Block, nonce: u64) -> Block {
    Block { block_nonce: nonce, ..b }
}

/// Whether `b` with the given nonce has a hash that meets `prefix`.
pub open spec fn solves(b: Block, nonce: u64, prefix: Seq<char>) -> bool {
    meets_prefix(block_hash(with_nonce(b, nonce)), prefix)
}

/// What mining `before` against `prefix` leaves: only the nonce moves, upward,
/// past nonces that all fail; it stops on the first that succeeds, or at the
/// largest nonce when none does.
pub open spec fn mined_from(before: Block, after: Block, prefix: Seq<char>) -> bool {
    &&& after == with_nonce(before, after.block_nonce)
    &&& before.block_nonce <= after.block_nonce
    &&& forall|n: u64|
        before.block_nonce <= n < after.block_nonce ==> !#[trigger] solves(before, n, prefix)
    &&& meets_prefix(block_hash(after), prefix) || after.block_nonce == u64::MAX
}

fn append_transaction_json(out: &mut String, t: &Transaction)
    ensures
        final(out)@ == old(out)@ + transaction_json(*t),
{
    out.append("{\"transaction_id\":");
    out.append(json_string(t.transaction_id.as_str()).as_str());
    out.append(",\"transaction_timestamp\":");
    push_int(out, t.transaction_timestamp);
    out.append(",\"transaction_details\":");
    out.append(json_string(t.transaction_details.as_str()).as_str());
    out.append("}");
    assert(out@ =~= old(out)@ + transaction_json(*t));
}

impl Transaction {
    /// A transaction with the given timestamp; nothing is checked.
    pub fn new_at(transaction_id: String, transaction_details: String, transaction_timestamp: i64) -> (r: Transaction)
        ensures
            r.transaction_id == transaction_id,
            r.transaction_timestamp == transaction_timestamp,
            r.transaction_details == transaction_details,
    {
        Transaction { transaction_id, transaction_timestamp, transaction_details }
    }

    /// A transaction stamped with the current time; nothing is checked.
    pub fn new(transaction_id: String, transaction_details: String) -> (r: Transaction)
        ensures
            r.transaction_id == transaction_id,
            r.transaction_timestamp >= 0,
            r.transaction_details == transaction_details,
    {
        Self::new_at(transaction_id, transaction_details, unix_now())
    }
}

impl Block {
    /// The first block of a chain, with the given timestamps for its
    /// placeholder transaction and for itself.
    pub fn genesis_at(transaction_timestamp: i64, block_timestamp: i64) -> (r: Block)
        ensures
            r.block_number == 1,
            r.block_timestamp == block_timestamp,
            r.block_nonce == 0,
            r.transaction_list@.len() == 1,
            r.transaction_list@[0].transaction_id@ == "1"@,
            r.transaction_list@[0].transaction_timestamp == transaction_timestamp,
            r.transaction_list@[0].transaction_details@ == GENESIS_DETAILS@,
            r.previous_block_hash@ == "0"@,
    {
        let transaction = Transaction {
            transaction_id: String::from_str("1"),
            transaction_details: String::from_str(GENESIS_DETAILS),
            transaction_timestamp,
        };
        Block {
            block_number: 1,
            block_timestamp,
            block_nonce: 0,
            transaction_list: vec![transaction],
            previous_block_hash: String::from_str("0"),
        }
    }

    /// The first block of a chain, stamped with the current time. It is not mined.
    pub fn genesis() -> (r: Block)
        ensures
            r.block_number == 1,
            r.block_timestamp >= 0,
            r.block_nonce == 0,
            r.transaction_list@.len() == 1,
            r.transaction_list@[0].transaction_id@ == "1"@,
            r.transaction_list@[0].transaction_timestamp >= 0,
            r.transaction_list@[0].transaction_details@ == GENESIS_DETAILS@,
            r.previous_block_hash@ == "0"@,
    {
        let transaction_timestamp = unix_now();
        let block_timestamp = unix_now();
        Self::genesis_at(transaction_timestamp, block_timestamp)
    }

    /// The JSON form of the block, nonce included.
    pub fn serialize_block(&self) -> (r: String)
        ensures
            r@ == block_json(*self),
    {
        let mut out = String::from_str("{\"block_number\":");
        push_decimal(&mut out, self.block_number);
        out.append(",\"block_timestamp\":");
        push_int(&mut out, self.block_timestamp);
        out.append(",\"block_nonce\":");
        push_decimal(&mut out, self.block_nonce);
        out.append(",\"transaction_list\":[");
        let ghost head = out@;
        let mut i: usize = 0;
        while i < self.transaction_list.len()
            invariant
                i <= self.transaction_list@.len(),
                out@ == head + transactions_json(self.transaction_list@.take(i as int)),
            decreases self.transaction_list@.len() - i,
        {
            let ghost before = out@;
            if i > 0 {
                out.append(",");
            }
            append_transaction_json(&mut out, &self.transaction_list[i]);
            proof {
                let s = self.transaction_list@.take(i + 1);
                assert(s.drop_last() =~= self.transaction_list@.take(i as int));
                assert(s.last() == self.transaction_list@[i as int]);
                if i == 0 {
                    assert(self.transaction_list@.take(0) =~= Seq::<Transaction>::empty());
                }
                assert(out@ =~= head + transactions_json(s));
            }
            i = i + 1;
        }
        assert(self.transaction_list@.take(i as int) =~= self.transaction_list@);
        out.append("],\"previous_block_hash\":");
        out.append(json_string(self.previous_block_hash.as_str()).as_str());
        out.append("}");
        assert(out@ =~= block_json(*self));
        out
    }

    /// The hex SHA-256 digest of the block's JSON form.
    pub fn generate_hash(block: &Block) -> (r: String)
        ensures
            r@ == block_hash(*block),
    {
        let text = block.serialize_block();
        sha256_hex(text.as_str())
    }

    /// Whether `hash` starts with `prefix`.
    pub fn is_block_valid(hash: &str, prefix: &str) -> (r: bool)
        ensures
            r == meets_prefix(hash@, prefix@),
    {
        let hn = hash.unicode_len();
        let pn = prefix.unicode_len();
        if pn > hn {
            return false;
        }
        let mut i: usize = 0;
        while i < pn
            invariant
                pn == prefix@.len(),
                hn == hash@.len(),
                pn <= hn,
                i <= pn,
                forall|j: int| 0 <= j < i ==> hash@[j] == prefix@[j],
            decreases pn - i,
        {
            if hash.get_char(i) != prefix.get_char(i) {
                return false;
            }
            i = i + 1;
        }
        assert(hash@.subrange(0, prefix@.len() as int) =~= prefix@);
        true
    }

    /// An unmined block after `previous_block`, stamped with `block_timestamp`.
    pub fn new_at(transactions: Vec<Transaction>, previous_block: &Block, block_timestamp: i64) -> (r: Block)
        requires
            previous_block.block_number < u64::MAX,
        ensures
            r.block_number == previous_block.block_number + 1,
            r.block_timestamp == block_timestamp,
            r.block_nonce == 0,
            r.transaction_list == transactions,
            r.previous_block_hash@ == block_hash(*previous_block),
    {
        Block {
            block_number: previous_block.block_number + 1,
            block_timestamp,
            block_nonce: 0,
            transaction_list: transactions,
            previous_block_hash: Self::generate_hash(previous_block),
        }
    }

    /// An unmined block after `previous_block`, stamped with the current time.
    pub fn new(transactions: Vec<Transaction>, previous_block: &Block) -> (r: Block)
        requires
            previous_block.block_number < u64::MAX,
        ensures
            r.block_number == previous_block.block_number + 1,
            r.block_timestamp >= 0,
            r.block_nonce == 0,
            r.transaction_list == transactions,
            r.previous_block_hash@ == block_hash(*previous_block),
    {
        let block_timestamp = unix_now();
        Self::new_at(transactions, previous_block, block_timestamp)
    }

    /// Like `mine_new_block`, but gives up after `max_attempts` hashes, leaving
    /// the nonce one past the last that failed so that a later call goes on
    /// from there. Returns whether the block's hash now meets `prefix`.
    pub fn mine_within(block_candidate: &mut Block, prefix: &str, max_attempts: u64) -> (found: bool)
        ensures
            *final(block_candidate) == with_nonce(*old(block_candidate), final(block_candidate).block_nonce),
            old(block_candidate).block_nonce <= final(block_candidate).block_nonce,
            forall|n: u64|
                old(block_candidate).block_nonce <= n < final(block_candidate).block_nonce
                    ==> !#[trigger] solves(*old(block_candidate), n, prefix@),
            found ==> meets_prefix(block_hash(*final(block_candidate)), prefix@),
            !found ==> final(block_candidate).block_nonce - old(block_candidate).block_nonce == max_attempts
                || (final(block_candidate).block_nonce == u64::MAX
                    && !meets_prefix(block_hash(*final(block_candidate)), prefix@)),
    {
        let ghost start = *block_candidate;
        let mut attempts: u64 = 0;
        while attempts < max_attempts
            invariant
                start == *old(block_candidate),
                *block_candidate == with_nonce(start, block_candidate.block_nonce),
                start.block_nonce <= block_candidate.block_nonce,
                block_candidate.block_nonce - start.block_nonce == attempts,
                attempts <= max_attempts,
                forall|n: u64|
                    start.block_nonce <= n < block_candidate.block_nonce ==> !#[trigger] solves(start, n, prefix@),
            decreases max_attempts - attempts,
        {
            let hash = Self::generate_hash(block_candidate);
            if Self::is_block_valid(hash.as_str(), prefix) {
                return true;
            }
            if block_candidate.block_nonce == u64::MAX {
                return false;
            }
            block_candidate.block_nonce = block_candidate.block_nonce + 1;
            attempts = attempts + 1;
        }
        false
    }

    /// Raises the nonce one step at a time, from where it stands, until the
    /// block's hash starts with `prefix`.
    pub fn mine_new_block(block_candidate: &mut Block, prefix: &str)
        ensures
            mined_from(*old(block_candidate), *final(block_candidate), prefix@),
    {
        let ghost start = *block_candidate;
        loop
            invariant
                *block_candidate == with_nonce(start, block_candidate.block_nonce),
                start.block_nonce <= block_candidate.block_nonce,
                forall|n: u64|
                    start.block_nonce <= n < block_candidate.block_nonce ==> !#[trigger] solves(start, n, prefix@),
            ensures
                meets_prefix(block_hash(*block_candidate), prefix@) || block_candidate.block_nonce == u64::MAX,
            decreases u64::MAX - block_candidate.block_nonce,
        {
            let hash = Self::generate_hash(block_candidate);
            if Self::is_block_valid(hash.as_str(), prefix) {
                break;
            }
            if block_candidate.block_nonce == u64::MAX {
                break;
            }
            block_candidate.block_nonce = block_candidate.block_nonce + 1;
        }
    }
}

/// A block's hash depends on the values of its fields alone: two blocks that
/// hold the same values, or one block hashed twice while unchanged, give the
/// same hash.
pub proof fn lemma_hash_deterministic(a: Block, b: Block)
    requires
        a.block_number == b.block_number,
        a.block_timestamp == b.block_timestamp,
        a.block_nonce == b.block_nonce,
        a.transaction_list@ == b.transaction_list@,
        a.previous_block_hash@ == b.previous_block_hash@,
    ensures
        block_hash(a) == block_hash(b),
{
}

/// After mining, the block's hash meets the prefix, whenever some nonce from
/// the starting one up meets it.
pub proof fn lemma_mined_block_is_valid(before: Block, after: Block, prefix: Seq<char>, n: u64)
    requires
        mined_from(before, after, prefix),
        before.block_nonce <= n,
        solves(before, n, prefix),
    ensures
        meets_prefix(block_hash(after), prefix),
{
    if !meets_prefix(block_hash(after), prefix) {
        if n < after.block_nonce {
            assert(!solves(before, n, prefix));
        } else {
            assert(solves(before, after.block_nonce, prefix));
        }
    }
}

/// Mining stops on the least nonce, from the starting one up, that meets the
/// prefix.
pub proof fn lemma_mined_nonce_is_least(before: Block, after: Block, prefix: Seq<char>, n: u64)
    requires
        mined_from(before, after, prefix),
        before.block_nonce <= n,
        solves(before, n, prefix),
    ensures
        before.block_nonce <= after.block_nonce <= n,
        solves(before, after.block_nonce, prefix),
        forall|m: u64| before.block_nonce <= m < after.block_nonce ==> !#[trigger] solves(before, m, prefix),
{
    lemma_mined_block_is_valid(before, after, prefix, n);
    if n < after.block_nonce {
        assert(!solves(before, n, prefix));
    }
}

} // verus!
