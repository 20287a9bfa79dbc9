//! Paging backwards through an account's transactions: the decisions of the
//! retrieval loop, one page round trip at a time.

use vstd::prelude::*;
use vstd::string::*;
use crate::receiver::opt_view;
use crate::request;
use crate::types::{AccountState, Transaction, Transactions};

verus! {

/// The number of transactions a retrieval collects when no limit is given.
pub const DEFAULT_LIMIT: usize = 10;

pub open spec fn lt_of(t: Transaction) -> Seq<char> {
    t.transaction_id.lt@
}

/// How many transactions from the front of `page` are collected when at most
/// `room` more fit: the run before the first one at the stop position `to`,
/// cut at `room`.
pub open spec fn page_take(page: Seq<Transaction>, to: Seq<char>, room: nat) -> nat
    decreases page.len(),
{
    if page.len() == 0 || lt_of(page[0]) == to || room == 0 {
        0
    } else {
        1 + page_take(page.drop_first(), to, (room - 1) as nat)
    }
}

/// A page never yields more than fits, never yields the transaction at the
/// stop position nor any after it, and a page that yields nothing while
/// there is room starts with the stop position.
pub proof fn lemma_page_step(page: Seq<Transaction>, to: Seq<char>, room: nat)
    ensures
        page_take(page, to, room) <= room,
        page_take(page, to, room) <= page.len(),
        forall|j: int| 0 <= j < page_take(page, to, room) ==> lt_of(#[trigger] page[j]) != to,
        page.len() > 0 && room > 0 && page_take(page, to, room) == 0 ==> lt_of(page[0]) == to,
    decreases page.len(),
{
    if page.len() > 0 && lt_of(page[0]) != to && room > 0 {
        let rest = page.drop_first();
        lemma_page_step(rest, to, (room - 1) as nat);
        assert forall|j: int| 0 <= j < page_take(page, to, room) implies lt_of(#[trigger] page[j]) != to by {
            if j > 0 {
                assert(page[j] == rest[j - 1]);
            }
        }
    }
}

/// The state of a transaction history retrieval.
pub struct TxPager {
    pub address: String,
    pub to_lt: String,
    pub limit: usize,
    pub from_lt: Option<String>,
    pub from_hash: Option<String>,
    pub collected: Vec<Transaction>,
    pub done: bool,
}

impl TxPager {
    /// Never more than the limit, and never the transaction at the stop
    /// position.
    pub open spec fn wf(&self) -> bool {
        &&& self.collected@.len() <= self.limit
        &&& forall|i: int| 0 <= i < self.collected@.len() ==> lt_of(#[trigger] self.collected@[i]) != self.to_lt@
    }

    /// No more page round trips are due.
    pub open spec fn finished(&self) -> bool {
        self.done || self.collected@.len() >= self.limit
    }

    /// A bound on the page round trips still to come.
    pub open spec fn rounds_left(&self) -> nat {
        if self.finished() {
            0
        } else {
            (self.limit - self.collected@.len() + 1) as nat
        }
    }

    /// A retrieval for `address`, going back from the given transaction (or,
    /// where lt or hash is missing, from the account's last one) down to the
    /// logical time `to_lt` (default "0"), collecting at most `limit`
    /// transactions (default ten).
    pub fn new(
        address: String,
        from_lt: Option<String>,
        from_hash: Option<String>,
        to_lt: Option<String>,
        limit: Option<usize>,
    ) -> (r: TxPager)
        ensures
            r.wf(),
            !r.done,
            r.collected@.len() == 0,
            r.rounds_left() <= r.limit + 1,
            r.address == address,
            r.from_lt == from_lt,
            r.from_hash == from_hash,
            r.limit == match limit {
                Some(n) => n,
                None => DEFAULT_LIMIT,
            },
            r.to_lt@ == match to_lt {
                Some(t) => t@,
                None => "0"@,
            },
    {
        let limit = match limit {
            Some(n) => n,
            None => DEFAULT_LIMIT,
        };
        let to_lt = match to_lt {
            Some(t) => t,
            None => String::from_str("0"),
        };
        TxPager { address, to_lt, limit, from_lt, from_hash, collected: Vec::new(), done: false }
    }

    /// Whether the start position must first be read from the account state.
    pub fn needs_account_state(&self) -> (r: bool)
        ensures
            r == (self.from_lt is None || self.from_hash is None),
    {
        self.from_lt.is_none() || self.from_hash.is_none()
    }

    /// Completes the start position from the account state; without one the
    /// retrieval ends empty.
    pub fn seed(&mut self, state: Option<&AccountState>)
        requires
            old(self).wf(),
        ensures
            final(self).wf(),
            final(self).address == old(self).address,
            final(self).to_lt == old(self).to_lt,
            final(self).limit == old(self).limit,
            final(self).collected == old(self).collected,
            final(self).rounds_left() <= old(self).rounds_left(),
            match state {
                None => final(self).done && final(self).from_lt == old(self).from_lt
                    && final(self).from_hash == old(self).from_hash,
                Some(s) => {
                    &&& final(self).done == old(self).done
                    &&& opt_view(final(self).from_lt) == match old(self).from_lt {
                        Some(l) => Some(l@),
                        None => Some(s.last_transaction_id.lt@),
                    }
                    &&& opt_view(final(self).from_hash) == match old(self).from_hash {
                        Some(h) => Some(h@),
                        None => Some(s.last_transaction_id.hash@),
                    }
                },
            },
    {
        match state {
            None => {
                self.done = true;
            },
            Some(s) => {
                if self.from_lt.is_none() {
                    self.from_lt = Some(s.last_transaction_id.lt.clone());
                }
                if self.from_hash.is_none() {
                    self.from_hash = Some(s.last_transaction_id.hash.clone());
                }
            },
        }
    }

    /// The next page request, or none once the retrieval is over.
    pub fn next_request(&self) -> (r: Option<request::Transactions>)
        ensures
            r is None <==> self.finished(),
            r is None <==> self.rounds_left() == 0,
            r matches Some(q) ==> q.address@ == self.address@ && opt_view(q.from_transaction_lt)
                == opt_view(self.from_lt) && opt_view(q.from_transaction_hash) == opt_view(
                self.from_hash,
            ),
    {
        if self.done || self.collected.len() >= self.limit {
            None
        } else {
            Some(
                request::Transactions {
                    address: self.address.clone(),
                    from_transaction_lt: self.from_lt.clone(),
                    from_transaction_hash: self.from_hash.clone(),
                },
            )
        }
    }

    /// Takes in the answer to a page request: none for a failed round trip,
    /// which ends the retrieval with what was collected. A page adds its
    /// transactions up to the stop position or the limit, whichever comes
    /// first, and moves the start position to the page's continuation.
    pub fn on_page(&mut self, page: Option<Transactions>)
        requires
            old(self).wf(),
        ensures
            final(self).wf(),
            final(self).address == old(self).address,
            final(self).to_lt == old(self).to_lt,
            final(self).limit == old(self).limit,
            !old(self).finished() ==> final(self).rounds_left() < old(self).rounds_left(),
            old(self).finished() ==> *final(self) == *old(self),
            !old(self).finished() ==> match page {
                None => final(self).done && final(self).collected@ == old(self).collected@,
                Some(p) => if p.transactions@.len() == 0 {
                    final(self).done && final(self).collected@ == old(self).collected@
                } else {
                    let k = page_take(
                        p.transactions@,
                        old(self).to_lt@,
                        (old(self).limit - old(self).collected@.len()) as nat,
                    );
                    &&& final(self).collected@ == old(self).collected@ + p.transactions@.subrange(
                        0,
                        k as int,
                    )
                    &&& final(self).done == (k < p.transactions@.len() && lt_of(
                        p.transactions@[k as int],
                    ) == old(self).to_lt@)
                    &&& match p.previous_transaction_id {
                        Some(t) => opt_view(final(self).from_lt) == Some(t.lt@) && opt_view(
                            final(self).from_hash,
                        ) == Some(t.hash@),
                        None => final(self).from_lt == old(self).from_lt && final(self).from_hash
                            == old(self).from_hash,
                    }
                },
            },
    {
        if self.done || self.collected.len() >= self.limit {
            return ;
        }
        match page {
            None => {
                self.done = true;
            },
            Some(p) => {
                let Transactions { previous_transaction_id, transactions } = p;
                if transactions.len() == 0 {
                    self.done = true;
                    return ;
                }
                let ghost page_s = transactions@;
                let ghost start = self.collected@;
                let ghost room = (self.limit - start.len()) as nat;
                let mut rest = transactions;
                let mut i: usize = 0;
                let mut stopped = false;
                loop
                    invariant_except_break
                        i <= page_s.len(),
                        rest@ == page_s.subrange(i as int, page_s.len() as int),
                        self.collected@ == start + page_s.subrange(0, i as int),
                        self.limit == start.len() + room,
                        i <= room,
                        !stopped,
                        i + page_take(rest@, self.to_lt@, (room - i) as nat) == page_take(
                            page_s,
                            self.to_lt@,
                            room,
                        ),
                        self.to_lt == old(self).to_lt,
                        self.limit == old(self).limit,
                        self.address == old(self).address,
                        self.from_lt == old(self).from_lt,
                        self.from_hash == old(self).from_hash,
                        !self.done,
                    ensures
                        i == page_take(page_s, self.to_lt@, room),
                        stopped == (i < page_s.len() && lt_of(page_s[i as int]) == self.to_lt@),
                        self.collected@ == start + page_s.subrange(0, i as int),
                        self.to_lt == old(self).to_lt,
                        self.limit == old(self).limit,
                        self.address == old(self).address,
                        self.from_lt == old(self).from_lt,
                        self.from_hash == old(self).from_hash,
                        !self.done,
                    decreases rest@.len(),
                {
                    if rest.len() == 0 {
                        break;
                    }
                    assert(rest@[0] == page_s[i as int]);
                    if rest[0].transaction_id.lt == self.to_lt {
                        stopped = true;
                        break;
                    }
                    if self.collected.len() >= self.limit {
                        break;
                    }
                    let ghost before = rest@;
                    let tx = rest.remove(0);
                    assert(before.drop_first() =~= rest@);
                    assert(rest@ =~= page_s.subrange(i as int + 1, page_s.len() as int));
                    self.collected.push(tx);
                    assert(self.collected@ =~= start + page_s.subrange(0, i as int + 1));
                    i = i + 1;
                }
                proof {
                    lemma_page_step(page_s, self.to_lt@, room);
                    let c = self.collected@;
                    assert forall|j: int| 0 <= j < c.len() implies lt_of(#[trigger] c[j]) != self.to_lt@ by {
                        if j >= start.len() {
                            assert(c[j] == page_s[j - start.len()]);
                        } else {
                            assert(c[j] == start[j]);
                        }
                    }
                }
                if stopped {
                    self.done = true;
                }
                if let Some(next) = previous_transaction_id {
                    self.from_lt = Some(next.lt);
                    self.from_hash = Some(next.hash);
                }
            },
        }
    }

    /// The transactions collected so far, newest first.
    pub fn into_transactions(self) -> (r: Vec<Transaction>)
        ensures
            r@ == self.collected@,
    {
        self.collected
    }
}

} // verus!
