//! The outbox as a journal: what is written out is what the rows hold, and what
//! is announced was written out before.
use crate::json::JsonView;
use crate::store::ChangeView;
use crate::store::EffectView;
use crate::store::PublicSession;
use crate::store::PublicSessionView;
use crate::store::Record;
use crate::store::RecordView;
use crate::store::StoreView;
use crate::store::ToolCall;
use crate::store::ToolCallView;
use crate::sweep::keeps_keys;
use crate::sweep::ruled;
use crate::sweep::sweep_effects;
use crate::sweep::swept;
use crate::sweep::Saved;
use crate::table::distinct_keys;
use crate::table::lemma_found;
use crate::table::put;
use crate::table::Row;
use vstd::prelude::*;

verus! {

impl StoreView {
    /// The rows alone.
    pub open spec fn rows(self) -> StoreView {
        StoreView { outbox: Seq::empty(), ..self }
    }

    /// Whether what an event carries is saved: the session, the turn and the
    /// item, where it carries one.
    pub open spec fn holds(self, event: JsonView) -> bool {
        &&& event.get("session"@) is Some ==> exists|i: int|
            0 <= i < self.public_sessions.len() && (#[trigger] self.public_sessions[i]).data
                == event.get("session"@)->0
        &&& event.get("turn"@) is Some ==> exists|i: int|
            0 <= i < self.records.len() && (#[trigger] self.records[i]).kind is Turn
                && self.records[i].data == event.get("turn"@)->0
        &&& event.get("item"@) is Some ==> exists|i: int|
            0 <= i < self.records.len() && (#[trigger] self.records[i]).kind is Item
                && self.records[i].data == event.get("item"@)->0
    }
}

/// The rows after the effects have been carried out on them.
pub open spec fn written(store: StoreView, effects: Seq<EffectView>) -> StoreView
    decreases effects.len(),
{
    if effects.len() == 0 {
        store
    } else {
        let before = written(store, effects.drop_last());
        match effects.last() {
            EffectView::Save(change) => before.applied(change),
            _ => before,
        }
    }
}

/// Whether every event among the effects carries only what was saved when its
/// turn comes.
pub open spec fn saved_first(store: StoreView, effects: Seq<EffectView>) -> bool {
    forall|k: int|
        0 <= k < effects.len() && (#[trigger] effects[k]) is Publish ==> written(
            store,
            effects.take(k),
        ).holds(effects[k]->Publish_0)
}

/// Whether the service has got from one state to another so that carrying out
/// the effects it put up on the way does the same to the rows that are written
/// out, and announces nothing that was not written out before.
pub open spec fn journaled(before: StoreView, after: StoreView) -> bool {
    let n = before.outbox.len() as int;
    &&& n <= after.outbox.len()
    &&& after.outbox.take(n) == before.outbox
    &&& written(before.rows(), after.outbox.skip(n)) == after.rows()
    &&& saved_first(before.rows(), after.outbox.skip(n))
}

/// Effects in two parts are carried out one part after the other.
pub proof fn lemma_written_concat(store: StoreView, a: Seq<EffectView>, b: Seq<EffectView>)
    ensures
        written(store, a + b) == written(written(store, a), b),
    decreases b.len(),
{
    if b.len() == 0 {
        assert(a + b =~= a);
    } else {
        assert((a + b).drop_last() =~= a + b.drop_last());
        lemma_written_concat(store, a, b.drop_last());
    }
}

/// Nothing has happened.
pub proof fn lemma_journaled_same(store: StoreView)
    ensures
        journaled(store, store),
{
    let n = store.outbox.len() as int;
    assert(store.outbox.take(n) =~= store.outbox);
    assert(store.outbox.skip(n) =~= Seq::<EffectView>::empty());
}

/// One thing after the other has happened.
pub proof fn lemma_journaled_then(a: StoreView, b: StoreView, c: StoreView)
    requires
        journaled(a, b),
        journaled(b, c),
    ensures
        journaled(a, c),
{
    let n = a.outbox.len() as int;
    let m = b.outbox.len() as int;
    let first = b.outbox.skip(n);
    let second = c.outbox.skip(m);
    assert(c.outbox.take(n) =~= c.outbox.take(m).take(n));
    assert(c.outbox.skip(n) =~= first + second) by {
        assert forall|k: int| 0 <= k < c.outbox.len() - n implies c.outbox.skip(n)[k] == (first
            + second)[k] by {
            if k < m - n {
                assert(c.outbox.take(m)[n + k] == b.outbox[n + k]);
            }
        }
    }
    lemma_written_concat(a.rows(), first, second);
    let all = first + second;
    assert forall|k: int| 0 <= k < all.len() && (#[trigger] all[k]) is Publish implies written(
        a.rows(),
        all.take(k),
    ).holds(all[k]->Publish_0) by {
        if k < first.len() {
            assert(all.take(k) =~= first.take(k));
            assert(first[k] is Publish);
        } else {
            let j = k - first.len();
            assert(all.take(k) =~= first + second.take(j));
            lemma_written_concat(a.rows(), first, second.take(j));
            assert(second[j] is Publish);
        }
    }
}

/// One effect more.
proof fn lemma_journaled_push(before: StoreView, after: StoreView, effect: EffectView)
    requires
        after.outbox == before.outbox.push(effect),
        after.rows() == match effect {
            EffectView::Save(change) => before.rows().applied(change),
            _ => before.rows(),
        },
        effect is Publish ==> before.holds(effect->Publish_0),
    ensures
        journaled(before, after),
{
    let n = before.outbox.len() as int;
    let new = after.outbox.skip(n);
    assert(after.outbox.take(n) =~= before.outbox);
    assert(new =~= seq![effect]);
    assert(new.drop_last() =~= Seq::<EffectView>::empty());
    assert(new.last() == effect);
    assert(written(before.rows(), new.drop_last()) == before.rows());
    assert forall|k: int| 0 <= k < new.len() && (#[trigger] new[k]) is Publish implies written(
        before.rows(),
        new.take(k),
    ).holds(new[k]->Publish_0) by {
        assert(k == 0);
        assert(new.take(k) =~= Seq::<EffectView>::empty());
        assert(before.rows().public_sessions == before.public_sessions);
        assert(before.rows().records == before.records);
    }
}

/// A row that is saved is written out.
pub proof fn lemma_saved_journaled(store: StoreView, change: ChangeView)
    ensures
        journaled(store, store.saved(change)),
{
    lemma_journaled_push(store, store.saved(change), EffectView::Save(change));
}

/// An event that carries only what is saved may be announced.
pub proof fn lemma_published_journaled(store: StoreView, event: JsonView)
    requires
        store.holds(event),
    ensures
        journaled(store, store.published(event)),
{
    lemma_journaled_push(store, store.published(event), EffectView::Publish(event));
}

/// An event of the backend may be passed on.
pub proof fn lemma_notified_journaled(store: StoreView, event: JsonView)
    ensures
        journaled(store, store.notified(event)),
{
    lemma_journaled_push(store, store.notified(event), EffectView::Notify(event));
}

/// The public streams may be told to end.
pub proof fn lemma_closed_journaled(store: StoreView, event: JsonView)
    ensures
        journaled(store, store.closed(event)),
{
    lemma_journaled_push(store, store.closed(event), EffectView::Close(event));
}

/// A table after the rows that a rule changes have been put into it one by one.
spec fn rule_puts<R: Saved>(
    rows: Seq<R::V>,
    source: Seq<R::V>,
    rule: spec_fn(R::V) -> Option<R::V>,
) -> Seq<R::V>
    decreases source.len(),
{
    if source.len() == 0 {
        rows
    } else {
        let before = rule_puts::<R>(rows, source.drop_last(), rule);
        match rule(source.last()) {
            Some(changed) => put::<R>(before, changed),
            None => before,
        }
    }
}

/// Putting the changed rows one by one is letting the rule go over the table.
proof fn lemma_rule_puts<R: Saved>(
    rows: Seq<R::V>,
    n: int,
    rule: spec_fn(R::V) -> Option<R::V>,
)
    requires
        distinct_keys::<R>(rows),
        keeps_keys::<R>(rule),
        0 <= n <= rows.len(),
    ensures
        rule_puts::<R>(rows, rows.take(n), rule) == swept(rows.take(n), rule) + rows.skip(n),
    decreases n,
{
    if n == 0 {
        assert(swept(rows.take(0), rule) + rows.skip(0) =~= rows);
    } else {
        lemma_rule_puts::<R>(rows, n - 1, rule);
        let source = rows.take(n);
        let before = swept(rows.take(n - 1), rule) + rows.skip(n - 1);
        let row = rows[n - 1];
        assert(source.drop_last() =~= rows.take(n - 1));
        assert(source.last() == row);
        let after = swept(source, rule) + rows.skip(n);
        assert(before[n - 1] == row);
        assert forall|j: int| 0 <= j < rows.len() implies R::key(#[trigger] before[j]) == R::key(
            rows[j],
        ) by {
            if j < n - 1 {
                assert(before[j] == ruled(rows[j], rule));
                assert(rule(rows[j]) is Some || rule(rows[j]) is None);
            } else {
                assert(before[j] == rows[j]);
            }
        }
        match rule(row) {
            Some(changed) => {
                assert(R::key(changed) == R::key(row));
                assert forall|j: int| 0 <= j < n - 1 implies R::key(#[trigger] before[j])
                    != R::key(changed) by {
                    assert(R::key(rows[j]) != R::key(rows[n - 1]));
                }
                lemma_found::<R>(before, R::key(changed), n - 1);
                assert(before.update(n - 1, changed) =~= after);
            },
            None => {
                assert(before =~= after);
            },
        }
    }
}

/// A rule that goes over a table puts up only rows to be written.
proof fn lemma_sweep_saves<R: Saved>(rows: Seq<R::V>, rule: spec_fn(R::V) -> Option<R::V>, k: int)
    requires
        0 <= k < sweep_effects::<R>(rows, rule).len(),
    ensures
        sweep_effects::<R>(rows, rule)[k] is Save,
    decreases rows.len(),
{
    if rows.len() > 0 {
        let front = sweep_effects::<R>(rows.drop_last(), rule);
        if k < front.len() {
            lemma_sweep_saves::<R>(rows.drop_last(), rule, k);
        }
    }
}

proof fn lemma_written_calls(
    store: StoreView,
    source: Seq<ToolCallView>,
    rule: spec_fn(ToolCallView) -> Option<ToolCallView>,
)
    ensures
        written(store, sweep_effects::<ToolCall>(source, rule)) == (StoreView {
            calls: rule_puts::<ToolCall>(store.calls, source, rule),
            ..store
        }),
    decreases source.len(),
{
    if source.len() > 0 {
        lemma_written_calls(store, source.drop_last(), rule);
        let front = sweep_effects::<ToolCall>(source.drop_last(), rule);
        match rule(source.last()) {
            Some(changed) => {
                let effects = front.push(EffectView::Save(ChangeView::Call(changed)));
                assert(effects.drop_last() =~= front);
            },
            None => {},
        }
    }
}

proof fn lemma_written_public_sessions(
    store: StoreView,
    source: Seq<PublicSessionView>,
    rule: spec_fn(PublicSessionView) -> Option<PublicSessionView>,
)
    ensures
        written(store, sweep_effects::<PublicSession>(source, rule)) == (StoreView {
            public_sessions: rule_puts::<PublicSession>(store.public_sessions, source, rule),
            ..store
        }),
    decreases source.len(),
{
    if source.len() > 0 {
        lemma_written_public_sessions(store, source.drop_last(), rule);
        let front = sweep_effects::<PublicSession>(source.drop_last(), rule);
        match rule(source.last()) {
            Some(changed) => {
                let effects = front.push(EffectView::Save(ChangeView::PublicSession(changed)));
                assert(effects.drop_last() =~= front);
            },
            None => {},
        }
    }
}

proof fn lemma_written_records(
    store: StoreView,
    source: Seq<RecordView>,
    rule: spec_fn(RecordView) -> Option<RecordView>,
)
    ensures
        written(store, sweep_effects::<Record>(source, rule)) == (StoreView {
            records: rule_puts::<Record>(store.records, source, rule),
            ..store
        }),
    decreases source.len(),
{
    if source.len() > 0 {
        lemma_written_records(store, source.drop_last(), rule);
        let front = sweep_effects::<Record>(source.drop_last(), rule);
        match rule(source.last()) {
            Some(changed) => {
                let effects = front.push(EffectView::Save(ChangeView::Record(changed)));
                assert(effects.drop_last() =~= front);
            },
            None => {},
        }
    }
}

/// Effects that only write rows are journaled.
proof fn lemma_saves_journaled(before: StoreView, after: StoreView, effects: Seq<EffectView>)
    requires
        after.outbox == before.outbox + effects,
        after.rows() == written(before.rows(), effects),
        forall|k: int| 0 <= k < effects.len() ==> (#[trigger] effects[k]) is Save,
    ensures
        journaled(before, after),
{
    let n = before.outbox.len() as int;
    assert(after.outbox.take(n) =~= before.outbox);
    assert(after.outbox.skip(n) =~= effects);
}

/// A rule for calls writes out what it changes.
pub proof fn lemma_calls_swept_journaled(
    store: StoreView,
    rule: spec_fn(ToolCallView) -> Option<ToolCallView>,
)
    requires
        distinct_keys::<ToolCall>(store.calls),
        keeps_keys::<ToolCall>(rule),
    ensures
        journaled(
            store,
            StoreView {
                calls: swept(store.calls, rule),
                outbox: store.outbox + sweep_effects::<ToolCall>(store.calls, rule),
                ..store
            },
        ),
{
    let n = store.calls.len() as int;
    let effects = sweep_effects::<ToolCall>(store.calls, rule);
    let after = StoreView {
        calls: swept(store.calls, rule),
        outbox: store.outbox + effects,
        ..store
    };
    assert(store.calls.take(n) =~= store.calls);
    lemma_rule_puts::<ToolCall>(store.calls, n, rule);
    assert(swept(store.calls, rule) + store.calls.skip(n) =~= swept(store.calls, rule));
    lemma_written_calls(store.rows(), store.calls, rule);
    assert forall|k: int| 0 <= k < effects.len() implies (#[trigger] effects[k]) is Save by {
        lemma_sweep_saves::<ToolCall>(store.calls, rule, k);
    }
    lemma_saves_journaled(store, after, effects);
}

/// A rule for public sessions writes out what it changes.
pub proof fn lemma_public_sessions_swept_journaled(
    store: StoreView,
    rule: spec_fn(PublicSessionView) -> Option<PublicSessionView>,
)
    requires
        distinct_keys::<PublicSession>(store.public_sessions),
        keeps_keys::<PublicSession>(rule),
    ensures
        journaled(
            store,
            StoreView {
                public_sessions: swept(store.public_sessions, rule),
                outbox: store.outbox + sweep_effects::<PublicSession>(
                    store.public_sessions,
                    rule,
                ),
                ..store
            },
        ),
{
    let n = store.public_sessions.len() as int;
    let effects = sweep_effects::<PublicSession>(store.public_sessions, rule);
    let after = StoreView {
        public_sessions: swept(store.public_sessions, rule),
        outbox: store.outbox + effects,
        ..store
    };
    assert(store.public_sessions.take(n) =~= store.public_sessions);
    lemma_rule_puts::<PublicSession>(store.public_sessions, n, rule);
    assert(swept(store.public_sessions, rule) + store.public_sessions.skip(n) =~= swept(
        store.public_sessions,
        rule,
    ));
    lemma_written_public_sessions(store.rows(), store.public_sessions, rule);
    assert forall|k: int| 0 <= k < effects.len() implies (#[trigger] effects[k]) is Save by {
        lemma_sweep_saves::<PublicSession>(store.public_sessions, rule, k);
    }
    lemma_saves_journaled(store, after, effects);
}

/// A rule for records writes out what it changes.
pub proof fn lemma_records_swept_journaled(
    store: StoreView,
    rule: spec_fn(RecordView) -> Option<RecordView>,
)
    requires
        distinct_keys::<Record>(store.records),
        keeps_keys::<Record>(rule),
    ensures
        journaled(
            store,
            StoreView {
                records: swept(store.records, rule),
                outbox: store.outbox + sweep_effects::<Record>(store.records, rule),
                ..store
            },
        ),
{
    let n = store.records.len() as int;
    let effects = sweep_effects::<Record>(store.records, rule);
    let after = StoreView {
        records: swept(store.records, rule),
        outbox: store.outbox + effects,
        ..store
    };
    assert(store.records.take(n) =~= store.records);
    lemma_rule_puts::<Record>(store.records, n, rule);
    assert(swept(store.records, rule) + store.records.skip(n) =~= swept(store.records, rule));
    lemma_written_records(store.rows(), store.records, rule);
    assert forall|k: int| 0 <= k < effects.len() implies (#[trigger] effects[k]) is Save by {
        lemma_sweep_saves::<Record>(store.records, rule, k);
    }
    lemma_saves_journaled(store, after, effects);
}

} // verus!
