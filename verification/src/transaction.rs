use vstd::prelude::*;
use vstd::string::*;
use crate::encoding::{push_quoted, push_signed_decimal, push_timestamp, quoted, signed_decimal, timestamp_text};
use crate::timestamp::Timestamp;

verus! {

/// A transfer of an amount from one party to another at a point in time.
#[derive(PartialEq, Debug)]
pub struct Transaction {
    pub from: String,
    pub to: String,
    pub time: Timestamp,
    pub amount: i32,
}

/// What a transaction holds, as mathematical values.
pub struct TransactionView {
    pub from: Seq<char>,
    pub to: Seq<char>,
    pub time: Timestamp,
    pub amount: int,
}

impl View for Transaction {
    type V = TransactionView;

    open spec fn view(&self) -> TransactionView {
        TransactionView {
            from: self.from@,
            to: self.to@,
            time: self.time,
            amount: self.amount as int,
        }
    }
}

impl Clone for Transaction {
    fn clone(&self) -> (copy: Self)
        ensures
            copy@ == self@,
    {
        Transaction {
            from: self.from.clone(),
            to: self.to.clone(),
            time: self.time,
            amount: self.amount,
        }
    }
}

/// The views of a sequence of transactions, in order.
pub open spec fn transaction_views(txs: Seq<Transaction>) -> Seq<TransactionView> {
    txs.map_values(|t: Transaction| t@)
}

/// A transaction as a JSON object with the fields `from`, `to`, `time` and
/// `amount`, in this order and without whitespace.
pub open spec fn transaction_text(t: TransactionView) -> Seq<char> {
    "{\"from\":"@ + quoted(t.from) + ",\"to\":"@ + quoted(t.to) + ",\"time\":"@ + timestamp_text(
        t.time,
    ) + ",\"amount\":"@ + signed_decimal(t.amount) + "}"@
}

/// The one-line description of a transaction.
pub open spec fn transaction_line(t: TransactionView) -> Seq<char> {
    "from "@ + t.from + " to "@ + t.to + " amt "@ + signed_decimal(t.amount)
}

/// The JSON objects of the transactions, separated by commas.
pub open spec fn transactions_text(txs: Seq<TransactionView>) -> Seq<char>
    decreases txs.len(),
{
    if txs.len() == 0 {
        Seq::empty()
    } else if txs.len() == 1 {
        transaction_text(txs[0])
    } else {
        transactions_text(txs.drop_last()) + ","@ + transaction_text(txs.last())
    }
}

impl Transaction {
    /// The description `from X to Y amt Z`.
    pub fn to_text(&self) -> (line: String)
        ensures
            line@ == transaction_line(self@),
    {
        let mut line = String::new();
        line.append("from ");
        line.append(self.from.as_str());
        line.append(" to ");
        line.append(self.to.as_str());
        line.append(" amt ");
        push_signed_decimal(&mut line, self.amount);
        assert(line@ =~= transaction_line(self@));
        line
    }

    /// Appends the JSON object of this transaction to `out`.
    pub fn push_text(&self, out: &mut String)
        ensures
            final(out)@ == old(out)@ + transaction_text(self@),
    {
        out.append("{\"from\":");
        push_quoted(out, self.from.as_str());
        out.append(",\"to\":");
        push_quoted(out, self.to.as_str());
        out.append(",\"time\":");
        push_timestamp(out, self.time);
        out.append(",\"amount\":");
        push_signed_decimal(out, self.amount);
        out.append("}");
        assert(final(out)@ =~= old(out)@ + transaction_text(self@));
    }
}

/// Appends the JSON objects of `txs`, separated by commas, to `out`.
pub fn push_transactions(out: &mut String, txs: &Vec<Transaction>)
    ensures
        final(out)@ == old(out)@ + transactions_text(transaction_views(txs@)),
{
    let ghost views = transaction_views(txs@);
    let mut i: usize = 0;
    while i < txs.len()
        invariant
            i <= txs.len(),
            views == transaction_views(txs@),
            out@ == old(out)@ + transactions_text(views.take(i as int)),
        decreases txs.len() - i,
    {
        if i > 0 {
            out.append(",");
        }
        txs[i].push_text(out);
        proof {
            let next = views.take(i + 1);
            assert(next.drop_last() =~= views.take(i as int));
            assert(next.last() == txs[i as int]@);
            if i == 0 {
                assert(views.take(0).len() == 0);
                assert(next[0] == txs[0]@);
                assert(out@ =~= old(out)@ + transactions_text(next));
            } else {
                assert(out@ =~= old(out)@ + transactions_text(next));
            }
        }
        i = i + 1;
    }
    proof {
        assert(views.take(txs.len() as int) =~= views);
    }
}

/// Copies a list of transactions, one by one.
pub fn clone_transactions(txs: &Vec<Transaction>) -> (copy: Vec<Transaction>)
    ensures
        transaction_views(copy@) == transaction_views(txs@),
{
    let mut copy: Vec<Transaction> = Vec::new();
    let mut i: usize = 0;
    while i < txs.len()
        invariant
            i <= txs.len(),
            copy@.len() == i,
            forall|k: int| 0 <= k < i ==> (#[trigger] copy@[k])@ == txs@[k]@,
        decreases txs.len() - i,
    {
        copy.push(txs[i].clone());
        i = i + 1;
    }
    assert(transaction_views(copy@) =~= transaction_views(txs@));
    copy
}

} // verus!
