//! Rules that go over a whole table, and what they leave to be written out.
use crate::model::option_view;
use crate::model::views;
use crate::model::Duplicate;
use crate::store::Change;
use crate::store::ChangeView;
use crate::store::Effect;
use crate::store::EffectView;
use crate::store::PublicSession;
use crate::store::PublicSessionView;
use crate::store::Record;
use crate::store::RecordView;
use crate::store::ToolCall;
use crate::store::ToolCallView;
use crate::table::distinct_keys;
use crate::table::lemma_found;
use crate::table::lemma_position;
use crate::table::lookup;
use crate::table::position;
use crate::table::Row;
use vstd::prelude::*;

verus! {

/// Rows that are written out when they change.
pub trait Saved: Row {
    /// The row as it is written out.
    spec fn change(row: Self::V) -> ChangeView;

    /// The row as it is written out.
    fn to_change(&self) -> (change: Change)
        ensures
            change@ == Self::change(self@),
    ;
}

impl Saved for ToolCall {
    open spec fn change(row: ToolCallView) -> ChangeView {
        ChangeView::Call(row)
    }

    fn to_change(&self) -> (change: Change) {
        Change::Call(self.duplicate())
    }
}

impl Saved for PublicSession {
    open spec fn change(row: PublicSessionView) -> ChangeView {
        ChangeView::PublicSession(row)
    }

    fn to_change(&self) -> (change: Change) {
        Change::PublicSession(self.duplicate())
    }
}

impl Saved for Record {
    open spec fn change(row: RecordView) -> ChangeView {
        ChangeView::Record(row)
    }

    fn to_change(&self) -> (change: Change) {
        Change::Record(self.duplicate())
    }
}

/// A rule for the rows of a table: what each becomes, or nothing where it stays
/// as it is.
pub trait Rule<R: Saved> {
    /// What the rule makes of a row.
    spec fn rule(&self) -> spec_fn(R::V) -> Option<R::V>;

    /// What the rule makes of a row.
    fn apply(&self, row: &R) -> (outcome: Option<R>)
        ensures
            option_view(outcome) == (self.rule())(row@),
    ;
}

/// A row after a rule has gone over it.
pub open spec fn ruled<V>(row: V, rule: spec_fn(V) -> Option<V>) -> V {
    match rule(row) {
        Some(changed) => changed,
        None => row,
    }
}

/// A table after a rule has gone over it.
pub open spec fn swept<V>(rows: Seq<V>, rule: spec_fn(V) -> Option<V>) -> Seq<V> {
    rows.map_values(|row: V| ruled(row, rule))
}

/// What is to be written out after a rule has gone over a table: the rows that
/// it changed.
pub open spec fn sweep_effects<R: Saved>(rows: Seq<R::V>, rule: spec_fn(R::V) -> Option<R::V>) -> Seq<
    EffectView,
>
    decreases rows.len(),
{
    if rows.len() == 0 {
        Seq::empty()
    } else {
        let front = sweep_effects::<R>(rows.drop_last(), rule);
        match rule(rows.last()) {
            Some(changed) => front.push(EffectView::Save(R::change(changed))),
            None => front,
        }
    }
}

/// Whether a rule leaves the keys of rows as they are.
pub open spec fn keeps_keys<R: Saved>(rule: spec_fn(R::V) -> Option<R::V>) -> bool {
    forall|row: R::V| (#[trigger] rule(row)) is Some ==> R::key(rule(row)->0) == R::key(row)
}

/// A rule that leaves the keys as they are changes no row but by its own
/// account: under each key stands what the rule makes of what stood there.
pub proof fn lemma_swept_lookup<R: Saved>(
    rows: Seq<R::V>,
    rule: spec_fn(R::V) -> Option<R::V>,
    key: Seq<Seq<char>>,
)
    requires
        keeps_keys::<R>(rule),
    ensures
        position::<R>(swept(rows, rule), key) == position::<R>(rows, key),
        lookup::<R>(swept(rows, rule), key) == match lookup::<R>(rows, key) {
            Some(row) => Some(ruled(row, rule)),
            None => None,
        },
{
    let after = swept(rows, rule);
    assert forall|i: int| 0 <= i < rows.len() implies R::key(#[trigger] after[i]) == R::key(
        rows[i],
    ) by {
        assert(after[i] == ruled(rows[i], rule));
        assert(rule(rows[i]) is Some || rule(rows[i]) is None);
    }
    lemma_position::<R>(rows, key);
    lemma_position::<R>(after, key);
    match position::<R>(rows, key) {
        Some(i) => {
            assert(R::key(after[i]) == key);
            assert forall|j: int| 0 <= j < i implies R::key(#[trigger] after[j]) != key by {
                assert(R::key(rows[j]) != key);
            }
            lemma_found::<R>(after, key, i);
        },
        None => {
            match position::<R>(after, key) {
                Some(i) => {
                    assert(R::key(rows[i]) == key);
                },
                None => {},
            }
        },
    }
}

/// A table with distinct keys keeps them when a rule that leaves the keys as
/// they are goes over it.
pub proof fn lemma_swept_distinct<R: Saved>(rows: Seq<R::V>, rule: spec_fn(R::V) -> Option<R::V>)
    requires
        keeps_keys::<R>(rule),
        distinct_keys::<R>(rows),
    ensures
        distinct_keys::<R>(swept(rows, rule)),
{
    let after = swept(rows, rule);
    assert forall|i: int, j: int| 0 <= i < j < after.len() implies R::key(#[trigger] after[i])
        != R::key(#[trigger] after[j]) by {
        assert(rule(rows[i]) is Some || rule(rows[i]) is None);
        assert(rule(rows[j]) is Some || rule(rows[j]) is None);
        assert(R::key(rows[i]) != R::key(rows[j]));
    }
}

/// Let a rule go over a table.
pub fn sweep<R: Saved, T: Rule<R>>(rows: &mut Vec<R>, outbox: &mut Vec<Effect>, rule: &T)
    ensures
        views(final(rows)@) == swept(views(old(rows)@), rule.rule()),
        views(final(outbox)@) == views(old(outbox)@) + sweep_effects::<R>(
            views(old(rows)@),
            rule.rule(),
        ),
{
    let ghost model = views(rows@);
    let ghost before = views(outbox@);
    let mut i: usize = 0;
    assert(model.take(0) =~= Seq::<R::V>::empty());
    assert(before + Seq::<EffectView>::empty() =~= before);
    while i < rows.len()
        invariant
            i <= rows@.len(),
            rows@.len() == model.len(),
            forall|j: int| 0 <= j < i ==> (#[trigger] rows@[j])@ == ruled(model[j], rule.rule()),
            forall|j: int| i <= j < rows@.len() ==> (#[trigger] rows@[j])@ == model[j],
            views(outbox@) == before + sweep_effects::<R>(model.take(i as int), rule.rule()),
        decreases rows@.len() - i,
    {
        proof {
            assert(model.take(i + 1).drop_last() =~= model.take(i as int));
            assert(model.take(i + 1).last() == model[i as int]);
            assert(rows@[i as int]@ == model[i as int]);
        }
        match rule.apply(&rows[i]) {
            Some(row) => {
                let change = row.to_change();
                let ghost outgoing = views(outbox@);
                outbox.push(Effect::Save(change));
                rows.set(i, row);
                proof {
                    let effect = EffectView::Save(R::change(row@));
                    assert(views(outbox@) =~= outgoing.push(effect));
                    let told = sweep_effects::<R>(model.take(i as int), rule.rule());
                    assert((before + told).push(effect) =~= before + told.push(effect));
                }
            },
            None => {},
        }
        i += 1;
    }
    assert(model.take(i as int) =~= model);
    assert(views(rows@) =~= swept(model, rule.rule()));
}

} // verus!
