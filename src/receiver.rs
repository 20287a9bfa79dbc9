//! The correlation table with its awaiter and the poller's handling of replies.

use vstd::prelude::*;
use vstd::string::*;
use crate::json::{string_member, string_member_of};
use crate::request::{envelope, envelope_head, extra, id_text, Request};
use crate::table::{
    keys_unique, lemma_table_at, lemma_table_dom, lemma_table_remove, state_view, table_of,
    Outcome, OutcomeView,
};

verus! {

/// What `take` yields on a table, and the table after it: a resolved entry
/// leaves the table; anything else leaves it as it was.
pub open spec fn take_spec(m: Map<Seq<char>, Option<OutcomeView>>, id: Seq<char>) -> (
    Option<OutcomeView>,
    Map<Seq<char>, Option<OutcomeView>>,
) {
    if m.contains_key(id) && m[id] is Some {
        (m[id], m.remove(id))
    } else {
        (None, m)
    }
}

/// The table after a reply for `id` arrived: known ids take the outcome,
/// unknown ones are dropped.
pub open spec fn resolve_spec(
    m: Map<Seq<char>, Option<OutcomeView>>,
    id: Seq<char>,
    o: OutcomeView,
) -> Map<Seq<char>, Option<OutcomeView>> {
    if m.contains_key(id) {
        m.insert(id, Some(o))
    } else {
        m
    }
}

/// The id and outcome that a reply carries, from its `@extra`, `@type` and
/// `message` members: no id, no outcome; a type `error` is a failure with
/// the message (empty when there is none); anything else is a success with
/// the whole text.
pub open spec fn classify_spec(
    extra: Option<Seq<char>>,
    type_tag: Option<Seq<char>>,
    message: Option<Seq<char>>,
    text: Seq<char>,
) -> Option<(Seq<char>, OutcomeView)> {
    match extra {
        None => None,
        Some(id) => Some(
            (
                id,
                if type_tag == Some("error"@) {
                    OutcomeView::Failure(
                        match message {
                            Some(m) => m,
                            None => Seq::empty(),
                        },
                    )
                } else {
                    OutcomeView::Success(text)
                },
            ),
        ),
    }
}

/// What a reply text decodes to.
pub open spec fn decoded(text: Seq<char>) -> Option<(Seq<char>, OutcomeView)> {
    classify_spec(
        string_member_of(text, "@extra"@),
        string_member_of(text, "@type"@),
        string_member_of(text, "message"@),
        text,
    )
}

pub open spec fn opt_view(o: Option<String>) -> Option<Seq<char>> {
    match o {
        Some(s) => Some(s@),
        None => None,
    }
}

pub open spec fn reply_view(r: Option<(String, Outcome)>) -> Option<(Seq<char>, OutcomeView)> {
    match r {
        Some((id, o)) => Some((id@, o@)),
        None => None,
    }
}

/// The deadline `timeout` after `now`, held at the largest tick.
pub open spec fn deadline_after(now: u64, timeout: u64) -> u64 {
    if now + timeout > u64::MAX {
        u64::MAX
    } else {
        (now + timeout) as u64
    }
}

/// The message of a request carries the request's id as its `@extra`
/// member, and a reply whose `@extra` member is a registered id resolves
/// the entry of exactly that id.
pub proof fn lemma_correlation_id_round_trip(
    m: Map<Seq<char>, Option<OutcomeView>>,
    id: Seq<char>,
    fields: Seq<char>,
    reply: Seq<char>,
)
    requires
        m.contains_key(id),
        string_member_of(reply, "@extra"@) == Some(id),
    ensures
        envelope(id, fields).subrange(0, envelope_head(id).len() as int) == envelope_head(id),
        decoded(reply) matches Some((k, o)) && k == id && resolve_spec(m, k, o) == m.insert(
            id,
            Some(o),
        ),
{
    assert(envelope(id, fields).subrange(0, envelope_head(id).len() as int) =~= envelope_head(id));
}

/// Once `take` has handed out an entry, a second `take` of the same id
/// yields nothing.
pub proof fn lemma_take_at_most_once(m: Map<Seq<char>, Option<OutcomeView>>, id: Seq<char>)
    requires
        take_spec(m, id).0 is Some,
    ensures
        take_spec(take_spec(m, id).1, id).0 is None,
{
}

/// A reply for an id that was taken or expired changes nothing: the entry
/// does not come back.
pub proof fn lemma_late_reply_ignored(
    m: Map<Seq<char>, Option<OutcomeView>>,
    id: Seq<char>,
    o: OutcomeView,
)
    ensures
        take_spec(m, id).0 is Some ==> resolve_spec(take_spec(m, id).1, id, o) == take_spec(m, id).1,
        resolve_spec(m.remove(id), id, o) == m.remove(id),
{
}

/// Builds the outcome of a reply from its members.
pub fn classify(
    extra: Option<String>,
    type_tag: Option<String>,
    message: Option<String>,
    text: String,
) -> (r: Option<(String, Outcome)>)
    ensures
        reply_view(r) == classify_spec(opt_view(extra), opt_view(type_tag), opt_view(message), text@),
{
    match extra {
        None => None,
        Some(id) => {
            let is_error = match &type_tag {
                Some(t) => {
                    let e = String::from_str("error");
                    *t == e
                },
                None => false,
            };
            if is_error {
                let m = match message {
                    Some(m) => m,
                    None => String::new(),
                };
                Some((id, Outcome::Failure(m)))
            } else {
                Some((id, Outcome::Success(text)))
            }
        },
    }
}

/// Reads the correlation id, the type and the error message out of a reply.
pub fn decode_response(text: &str) -> (r: Option<(String, Outcome)>)
    ensures
        reply_view(r) == decoded(text@),
{
    let extra = string_member(text, "@extra");
    let type_tag = string_member(text, "@type");
    let message = string_member(text, "message");
    classify(extra, type_tag, message, String::from_str(text))
}

/// The correlation table: pending and resolved requests by id, and the time
/// a request may wait for its reply.
pub struct RawReceiver {
    data: Vec<(String, Option<Outcome>)>,
    timeout: u64,
}

/// The wait for the reply to one request.
pub struct Awaiter {
    pub id: String,
    pub deadline: u64,
}

/// One step of a wait.
pub enum AwaitPoll {
    Pending,
    Ready(Outcome),
    TimedOut,
}

impl View for RawReceiver {
    type V = Map<Seq<char>, Option<OutcomeView>>;

    closed spec fn view(&self) -> Map<Seq<char>, Option<OutcomeView>> {
        table_of(self.data@)
    }
}

impl RawReceiver {
    pub closed spec fn wf(&self) -> bool {
        keys_unique(self.data@)
    }

    /// How long, in ticks, a request may wait for its reply.
    pub closed spec fn timeout_spec(&self) -> u64 {
        self.timeout
    }

    /// An empty table.
    pub fn new(timeout: u64) -> (r: RawReceiver)
        ensures
            r.wf(),
            r@ == Map::<Seq<char>, Option<OutcomeView>>::empty(),
            r.timeout_spec() == timeout,
    {
        RawReceiver { data: Vec::new(), timeout }
    }

    fn find(&self, id: &String) -> (r: Option<usize>)
        ensures
            match r {
                Some(i) => i < self.data@.len() && self.data@[i as int].0@ == id@,
                None => forall|i: int| 0 <= i < self.data@.len() ==> #[trigger] self.data@[i].0@ != id@,
            },
    {
        let mut i: usize = 0;
        while i < self.data.len()
            invariant
                i <= self.data@.len(),
                forall|j: int| 0 <= j < i ==> #[trigger] self.data@[j].0@ != id@,
            decreases self.data@.len() - i,
        {
            if self.data[i].0 == *id {
                return Some(i);
            }
            i = i + 1;
        }
        None
    }

    /// Whether the table holds an entry for `extra`.
    pub fn contains(&self, extra: &str) -> (r: bool)
        requires
            self.wf(),
        ensures
            r == self@.contains_key(extra@),
    {
        let id = String::from_str(extra);
        let f = self.find(&id);
        proof {
            lemma_table_dom(self.data@, extra@);
        }
        f.is_some()
    }

    /// Registers `extra` as pending.
    pub fn add_task(&mut self, extra: &str)
        requires
            old(self).wf(),
            !old(self)@.contains_key(extra@),
        ensures
            final(self).wf(),
            final(self)@ == old(self)@.insert(extra@, None),
            final(self).timeout_spec() == old(self).timeout_spec(),
    {
        let id = String::from_str(extra);
        proof {
            lemma_table_dom(self.data@, extra@);
        }
        self.data.push((id, None));
        proof {
            assert(self.data@.drop_last() =~= old(self).data@);
            assert forall|i: int, j: int|
                0 <= i < self.data@.len() && 0 <= j < self.data@.len() && i != j implies #[trigger] self.data@[i].0@
                != #[trigger] self.data@[j].0@ by {
                if i < old(self).data@.len() && j < old(self).data@.len() {
                    assert(self.data@[i] == old(self).data@[i]);
                    assert(self.data@[j] == old(self).data@[j]);
                } else if i < old(self).data@.len() {
                    assert(self.data@[i] == old(self).data@[i]);
                } else if j < old(self).data@.len() {
                    assert(self.data@[j] == old(self).data@[j]);
                }
            }
        }
    }

    /// Deposits the outcome of a reply. A reply for an id the table does
    /// not hold (consumed, expired or never registered) is dropped.
    pub fn resolve(&mut self, extra: &str, outcome: Outcome)
        requires
            old(self).wf(),
        ensures
            final(self).wf(),
            final(self)@ == resolve_spec(old(self)@, extra@, outcome@),
            final(self).timeout_spec() == old(self).timeout_spec(),
    {
        let id = String::from_str(extra);
        proof {
            lemma_table_dom(self.data@, extra@);
        }
        match self.find(&id) {
            None => {},
            Some(i) => {
                proof {
                    lemma_table_remove(self.data@, i as int);
                }
                let ghost before = self.data@;
                let _ = self.data.remove(i);
                proof {
                    lemma_table_dom(self.data@, extra@);
                }
                self.data.push((id, Some(outcome)));
                proof {
                    assert(self.data@.drop_last() =~= before.remove(i as int));
                    assert(table_of(self.data@) =~= table_of(old(self).data@).insert(
                        extra@,
                        Some(outcome@),
                    ));
                    let d = self.data@;
                    let n = d.len() - 1;
                    assert forall|a: int, b: int|
                        0 <= a < d.len() && 0 <= b < d.len() && a != b implies #[trigger] d[a].0@
                        != #[trigger] d[b].0@ by {
                        if a < n {
                            assert(d[a] == before.remove(i as int)[a]);
                        }
                        if b < n {
                            assert(d[b] == before.remove(i as int)[b]);
                        }
                    }
                }
            },
        }
    }

    /// Removes and returns the entry for `extra` if it is resolved; leaves
    /// the table as it was otherwise.
    pub fn take(&mut self, extra: &str) -> (r: Option<Outcome>)
        requires
            old(self).wf(),
        ensures
            final(self).wf(),
            (state_view(r), final(self)@) == take_spec(old(self)@, extra@),
            final(self).timeout_spec() == old(self).timeout_spec(),
    {
        let id = String::from_str(extra);
        proof {
            lemma_table_dom(self.data@, extra@);
        }
        match self.find(&id) {
            None => None,
            Some(i) => {
                proof {
                    lemma_table_at(self.data@, i as int);
                }
                if self.data[i].1.is_some() {
                    proof {
                        lemma_table_remove(self.data@, i as int);
                    }
                    let (_, o) = self.data.remove(i);
                    o
                } else {
                    None
                }
            },
        }
    }

    /// Removes the entry for `extra`, whatever its state.
    pub fn expire(&mut self, extra: &str)
        requires
            old(self).wf(),
        ensures
            final(self).wf(),
            final(self)@ == old(self)@.remove(extra@),
            final(self).timeout_spec() == old(self).timeout_spec(),
    {
        let id = String::from_str(extra);
        proof {
            lemma_table_dom(self.data@, extra@);
        }
        match self.find(&id) {
            None => {
                assert(old(self)@ =~= old(self)@.remove(extra@));
            },
            Some(i) => {
                proof {
                    lemma_table_remove(self.data@, i as int);
                }
                let _ = self.data.remove(i);
            },
        }
    }

    /// Starts the wait for the reply to `extra` at time `now`; it lasts the
    /// table's timeout.
    pub fn receive(&self, extra: &str, now: u64) -> (r: Awaiter)
        ensures
            r.id@ == extra@,
            r.deadline == deadline_after(now, self.timeout_spec()),
    {
        let deadline = if now > u64::MAX - self.timeout {
            u64::MAX
        } else {
            now + self.timeout
        };
        Awaiter { id: String::from_str(extra), deadline }
    }

    /// Handles one reply taken off the channel: a reply that carries a
    /// correlation id resolves that id; any other is dropped.
    pub fn deliver(&mut self, msg: &str)
        requires
            old(self).wf(),
        ensures
            final(self).wf(),
            final(self).timeout_spec() == old(self).timeout_spec(),
            match decoded(msg@) {
                None => final(self)@ == old(self)@,
                Some((id, o)) => final(self)@ == resolve_spec(old(self)@, id, o),
            },
    {
        match decode_response(msg) {
            None => {},
            Some((id, outcome)) => {
                self.resolve(id.as_str(), outcome);
            },
        }
    }

    /// Prepares a request: mints an id from the time stamp `micros` and a
    /// random nonce, registers it as pending, and returns it with the
    /// message that carries it. Gives none, and changes nothing, when the
    /// minted id is already in use.
    pub fn dispatch<R: Request>(&mut self, request: &R, micros: u128) -> (r: Option<(String, String)>)
        requires
            old(self).wf(),
        ensures
            final(self).wf(),
            final(self).timeout_spec() == old(self).timeout_spec(),
            match r {
                Some((id, msg)) => {
                    &&& exists|n: usize| id@ == id_text(micros as nat, n as nat)
                    &&& !old(self)@.contains_key(id@)
                    &&& final(self)@ == old(self)@.insert(id@, None)
                    &&& msg@ == envelope(id@, request.fields())
                },
                None => {
                    &&& final(self)@ == old(self)@
                    &&& exists|n: usize| old(self)@.contains_key(id_text(micros as nat, n as nat))
                },
            },
    {
        let id = extra(micros);
        if self.contains(id.as_str()) {
            None
        } else {
            self.add_task(id.as_str());
            let msg = request.serialize(id.as_str());
            Some((id, msg))
        }
    }
}

impl Awaiter {
    /// One step of the wait at time `now`. At or past the deadline the entry
    /// is removed and the wait has timed out; before it, a resolved entry is
    /// taken and returned, and a pending one is left in place.
    pub fn poll(&self, rx: &mut RawReceiver, now: u64) -> (r: AwaitPoll)
        requires
            old(rx).wf(),
        ensures
            final(rx).wf(),
            final(rx).timeout_spec() == old(rx).timeout_spec(),
            now >= self.deadline ==> r is TimedOut && final(rx)@ == old(rx)@.remove(self.id@),
            now < self.deadline ==> match r {
                AwaitPoll::Ready(o) => take_spec(old(rx)@, self.id@) == (Some(o@), final(rx)@),
                AwaitPoll::Pending => take_spec(old(rx)@, self.id@) == (
                    None::<OutcomeView>,
                    final(rx)@,
                ),
                AwaitPoll::TimedOut => false,
            },
    {
        if now >= self.deadline {
            rx.expire(self.id.as_str());
            AwaitPoll::TimedOut
        } else {
            match rx.take(self.id.as_str()) {
                Some(o) => AwaitPoll::Ready(o),
                None => AwaitPoll::Pending,
            }
        }
    }
}

} // verus!
