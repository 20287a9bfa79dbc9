//! The correlation table as an association list, and what it means as a map.

use vstd::prelude::*;

verus! {

/// What an engine reply settled: the reply text, or the engine's error message.
pub enum Outcome {
    Success(String),
    Failure(String),
}

pub enum OutcomeView {
    Success(Seq<char>),
    Failure(Seq<char>),
}

impl View for Outcome {
    type V = OutcomeView;

    open spec fn view(&self) -> OutcomeView {
        match self {
            Outcome::Success(p) => OutcomeView::Success(p@),
            Outcome::Failure(m) => OutcomeView::Failure(m@),
        }
    }
}

/// The state of one entry: `None` while pending, the outcome once resolved.
pub open spec fn state_view(s: Option<Outcome>) -> Option<OutcomeView> {
    match s {
        Some(o) => Some(o@),
        None => None,
    }
}

/// The map that a list of entries stands for.
pub open spec fn table_of(d: Seq<(String, Option<Outcome>)>) -> Map<Seq<char>, Option<OutcomeView>>
    decreases d.len(),
{
    if d.len() == 0 {
        Map::empty()
    } else {
        table_of(d.drop_last()).insert(d.last().0@, state_view(d.last().1))
    }
}

/// No two entries share an id.
pub open spec fn keys_unique(d: Seq<(String, Option<Outcome>)>) -> bool {
    forall|i: int, j: int|
        0 <= i < d.len() && 0 <= j < d.len() && i != j ==> #[trigger] d[i].0@ != #[trigger] d[j].0@
}

pub(crate) proof fn lemma_table_dom(d: Seq<(String, Option<Outcome>)>, k: Seq<char>)
    ensures
        table_of(d).contains_key(k) <==> exists|i: int| 0 <= i < d.len() && #[trigger] d[i].0@ == k,
    decreases d.len(),
{
    if d.len() > 0 {
        let dl = d.drop_last();
        lemma_table_dom(dl, k);
        if table_of(d).contains_key(k) && d.last().0@ != k {
            let i = choose|i: int| 0 <= i < dl.len() && #[trigger] dl[i].0@ == k;
            assert(d[i].0@ == k);
        }
        if exists|i: int| 0 <= i < d.len() && #[trigger] d[i].0@ == k {
            let i = choose|i: int| 0 <= i < d.len() && #[trigger] d[i].0@ == k;
            if i < d.len() - 1 {
                assert(dl[i].0@ == k);
            }
        }
    }
}

pub(crate) proof fn lemma_table_at(d: Seq<(String, Option<Outcome>)>, i: int)
    requires
        keys_unique(d),
        0 <= i < d.len(),
    ensures
        table_of(d).contains_key(d[i].0@),
        table_of(d)[d[i].0@] == state_view(d[i].1),
    decreases d.len(),
{
    let dl = d.drop_last();
    if i < d.len() - 1 {
        assert(d[i].0@ != d[d.len() - 1].0@);
        assert(dl[i] == d[i]);
        lemma_table_at(dl, i);
    }
}

pub(crate) proof fn lemma_table_remove(d: Seq<(String, Option<Outcome>)>, i: int)
    requires
        keys_unique(d),
        0 <= i < d.len(),
    ensures
        keys_unique(d.remove(i)),
        table_of(d.remove(i)) == table_of(d).remove(d[i].0@),
    decreases d.len(),
{
    let k = d[i].0@;
    let dl = d.drop_last();
    let r = d.remove(i);
    assert forall|a: int, b: int|
        0 <= a < r.len() && 0 <= b < r.len() && a != b implies #[trigger] r[a].0@ != #[trigger] r[b].0@ by {
        let a2 = if a < i { a } else { a + 1 };
        let b2 = if b < i { b } else { b + 1 };
        assert(r[a] == d[a2]);
        assert(r[b] == d[b2]);
    }
    if i == d.len() - 1 {
        assert(r =~= dl);
        lemma_table_dom(dl, k);
        assert forall|j: int| 0 <= j < dl.len() implies #[trigger] dl[j].0@ != k by {
            assert(dl[j] == d[j]);
        }
        assert(table_of(dl) =~= table_of(dl).insert(k, state_view(d.last().1)).remove(k));
    } else {
        assert(keys_unique(dl));
        lemma_table_remove(dl, i);
        assert(r.drop_last() =~= dl.remove(i));
        assert(r.last() == d.last());
        assert(d.last().0@ != k);
        assert(table_of(r) =~= table_of(d).remove(k));
    }
}

} // verus!
