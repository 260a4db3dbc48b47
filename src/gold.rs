//! Gold balances kept as an append-only ledger.
use vstd::prelude::*;

verus! {

/// What a gold change was for.
#[derive(Debug, Clone, Copy, PartialEq, Eq, Structural)]
pub enum LedgerKind {
    /// Gold bought through the payment provider, or granted by an administrator.
    GoldPurchase,
    /// Gold spent on a feature.
    GoldSpend,
    /// Gold spent on a subscription.
    Subscription,
    /// Gold paid for resources bought on the market.
    TradePayment,
    /// Gold received for resources sold on the market.
    TradeProceeds,
    /// Gold set aside when a buy order is placed.
    TradeEscrow,
    /// Escrowed gold returned when a buy order ends unfilled.
    TradeRefund,
}

/// One change of a user's gold.
#[derive(Debug, Clone, Copy, PartialEq, Eq, Structural)]
pub struct LedgerEntry {
    pub amount: i64,
    pub kind: LedgerKind,
}

/// Σ amount over `entries`.
pub open spec fn ledger_sum(entries: Seq<LedgerEntry>) -> int
    decreases entries.len(),
{
    if entries.len() == 0 {
        0
    } else {
        ledger_sum(entries.drop_last()) + entries.last().amount
    }
}

proof fn lemma_ledger_sum_push(entries: Seq<LedgerEntry>, e: LedgerEntry)
    ensures
        ledger_sum(entries.push(e)) == ledger_sum(entries) + e.amount,
{
    assert(entries.push(e).drop_last() =~= entries);
}

/// A user's gold: the cached balance and the ledger it is the sum of.
#[derive(Debug)]
pub struct GoldAccount {
    pub user_id: u128,
    pub gold_balance: i64,
    pub ledger: Vec<LedgerEntry>,
}

impl GoldAccount {
    /// The balance is non-negative and equals the sum of the ledger.
    pub open spec fn wf(&self) -> bool {
        &&& self.gold_balance >= 0
        &&& self.gold_balance == ledger_sum(self.ledger@)
    }

    /// `self` and `other` hold the same user, balance and ledger.
    pub open spec fn same(&self, other: &GoldAccount) -> bool {
        &&& self.user_id == other.user_id
        &&& self.gold_balance == other.gold_balance
        &&& self.ledger@ == other.ledger@
    }

    /// An account with no gold and an empty ledger.
    pub fn new(user_id: u128) -> (r: Self)
        ensures
            r.wf(),
            r.user_id == user_id,
            r.gold_balance == 0,
            r.ledger@.len() == 0,
    {
        GoldAccount { user_id, gold_balance: 0, ledger: Vec::new() }
    }

    /// Adds `amount` and records it.
    pub fn credit(&mut self, amount: i64, kind: LedgerKind)
        requires
            old(self).wf(),
            amount >= 0,
            old(self).gold_balance + amount <= i64::MAX,
        ensures
            final(self).wf(),
            final(self).user_id == old(self).user_id,
            final(self).gold_balance == old(self).gold_balance + amount,
            final(self).ledger@ == old(self).ledger@.push(LedgerEntry { amount, kind }),
    {
        proof {
            lemma_ledger_sum_push(self.ledger@, LedgerEntry { amount, kind });
        }
        self.gold_balance = self.gold_balance + amount;
        self.ledger.push(LedgerEntry { amount, kind });
    }

    /// Takes `amount` and records it, only where the balance covers it; the
    /// result says whether it did.
    pub fn debit(&mut self, amount: i64, kind: LedgerKind) -> (r: bool)
        requires
            old(self).wf(),
            amount >= 0,
        ensures
            final(self).wf(),
            final(self).user_id == old(self).user_id,
            r == (old(self).gold_balance >= amount),
            r ==> final(self).gold_balance == old(self).gold_balance - amount,
            r ==> final(self).ledger@ == old(self).ledger@.push(LedgerEntry { amount: (-amount) as i64, kind }),
            !r ==> final(self).same(old(self)),
    {
        if self.gold_balance < amount {
            return false;
        }
        proof {
            lemma_ledger_sum_push(self.ledger@, LedgerEntry { amount: (-amount) as i64, kind });
        }
        self.gold_balance = self.gold_balance - amount;
        self.ledger.push(LedgerEntry { amount: -amount, kind });
        true
    }
}

} // verus!
