//! What holds of an item from when it starts until it is complete.
use crate::json::group_object_reads;
use crate::json::JsonView;
use crate::json::signed_number;
use crate::names::lemma_event_fields;
use crate::names::lemma_item_names;
use crate::names::lemma_item_types;
use crate::projection::input_texts;
use crate::projection::is_function_call;
use crate::projection::item_content;
use crate::projection::output_texts;
use crate::projection::public_item;
use crate::projection::public_item_id;
use crate::projection::public_output;
use crate::projection::summary_texts;
use crate::records::is_input;
use crate::records::item_event;
use crate::records::item_published;
use crate::records::notified;
use crate::records::output_count;
use crate::records::output_index;
use crate::records::public_session_of_thread;
use crate::records::text_event;
use crate::soundness::law_notifications_are_sound;
use crate::soundness::lemma_event_names;
use crate::soundness::lemma_public_item;
use crate::soundness::lemma_triple_key;
use crate::store::kind_word;
use crate::store::record_key;
use crate::store::ChangeView;
use crate::store::EffectView;
use crate::store::Record;
use crate::store::RecordKind;
use crate::store::RecordView;
use crate::store::SessionRowView;
use crate::store::StoreView;
use crate::table::lemma_position;
use crate::table::lemma_put_lookup;
use crate::table::lemma_put_position;
use crate::table::position;
use crate::table::Row;
use vstd::prelude::*;

verus! {

/// Whether an effect announces that an item of a session was added.
pub open spec fn announces_added(
    effect: EffectView,
    session_id: Seq<char>,
    item_id: Seq<char>,
) -> bool {
    match effect {
        EffectView::Publish(event) => {
            &&& event.field("type"@) == JsonView::Text("agent.session.turn.item.added"@)
            &&& event.field("session_id"@) == JsonView::Text(session_id)
            &&& event.field("item"@).field("id"@) == JsonView::Text(item_id)
        },
        _ => false,
    }
}

/// How often effects announce that an item of a session was added.
pub open spec fn times_added(
    effects: Seq<EffectView>,
    session_id: Seq<char>,
    item_id: Seq<char>,
) -> nat
    decreases effects.len(),
{
    if effects.len() == 0 {
        0
    } else {
        times_added(effects.drop_last(), session_id, item_id) + if announces_added(
            effects.last(),
            session_id,
            item_id,
        ) {
            1nat
        } else {
            0nat
        }
    }
}

/// One more effect is counted if it announces the item.
proof fn lemma_times_added_push(
    effects: Seq<EffectView>,
    effect: EffectView,
    session_id: Seq<char>,
    item_id: Seq<char>,
)
    ensures
        times_added(effects.push(effect), session_id, item_id) == times_added(
            effects,
            session_id,
            item_id,
        ) + if announces_added(effect, session_id, item_id) {
            1nat
        } else {
            0nat
        },
{
    assert(effects.push(effect).drop_last() =~= effects);
}

/// Which events about an item announce that it was added.
proof fn lemma_added_events(
    session_id: Seq<char>,
    turn_id: Seq<char>,
    item: JsonView,
    index: int,
    shown: Seq<char>,
)
    ensures
        announces_added(
            EffectView::Publish(
                item_event("agent.session.turn.item.added"@, session_id, turn_id, item, index),
            ),
            session_id,
            shown,
        ) <==> item.field("id"@) == JsonView::Text(shown),
        !announces_added(
            EffectView::Publish(
                item_event("agent.session.turn.item.done"@, session_id, turn_id, item, index),
            ),
            session_id,
            shown,
        ),
        !announces_added(
            EffectView::Publish(text_event(session_id, turn_id, item, index)),
            session_id,
            shown,
        ),
{
    let added = item_event("agent.session.turn.item.added"@, session_id, turn_id, item, index);
    let done = item_event("agent.session.turn.item.done"@, session_id, turn_id, item, index);
    let spoken = text_event(session_id, turn_id, item, index);
    lemma_event_names();
    assert({
        &&& "session_id"@ != "turn_id"@
        &&& "session_id"@ != "output_index"@
        &&& "session_id"@ != "type"@
        &&& "type"@ != "turn_id"@
        &&& "type"@ != "item_id"@
        &&& "type"@ != "output_index"@
        &&& "type"@ != "content_index"@
        &&& "type"@ != "text"@
    }) by {
        reveal_strlit("session_id");
        reveal_strlit("turn_id");
        reveal_strlit("item_id");
        reveal_strlit("output_index");
        reveal_strlit("content_index");
        reveal_strlit("type");
        reveal_strlit("text");
        assert("session_id"@.len() == 10 && "turn_id"@.len() == 7 && "item_id"@.len() == 7);
        assert("output_index"@.len() == 12 && "content_index"@.len() == 13);
        assert("type"@[1] != "text"@[1]);
    }
    assert(added.field("type"@) == JsonView::Text("agent.session.turn.item.added"@)
        && added.field("session_id"@) == JsonView::Text(session_id) && added.field("item"@) == item
        && done.field("type"@) == JsonView::Text("agent.session.turn.item.done"@)
        && spoken.field("type"@) == JsonView::Text("agent.session.turn.output_text.done"@)) by {
        broadcast use group_object_reads;

    }
    reveal_strlit("agent.session.turn.item.added");
    reveal_strlit("agent.session.turn.item.done");
    reveal_strlit("agent.session.turn.output_text.done");
    assert("agent.session.turn.item.added"@.len() == 29);
    assert("agent.session.turn.item.done"@.len() == 28);
    assert("agent.session.turn.output_text.done"@.len() == 35);
}

/// What the announcement of an item makes of the place of a record and of how
/// often an item was announced as added; `shown` is the ID of any item.
proof fn lemma_item_kept(
    store: StoreView,
    session_id: Seq<char>,
    turn_id: Seq<char>,
    item: JsonView,
    done: bool,
    shown: Seq<char>,
)
    requires
        item.field("id"@).text() is Some,
    ensures
        ({
            let item_id = item.field("id"@).text()->0;
            let key = record_key(session_id, RecordKind::Item, shown);
            let after = item_published(store, session_id, turn_id, item, done).0;
            let new = store.record(session_id, RecordKind::Item, shown) is None;
            &&& after.public_sessions == store.public_sessions
            &&& after.sessions == store.sessions
            &&& position::<Record>(after.records, key) == match position::<Record>(
                store.records,
                key,
            ) {
                Some(i) => Some(i),
                None => if shown == item_id {
                    Some(store.records.len() as int)
                } else {
                    None
                },
            }
            &&& shown == item_id ==> after.record(session_id, RecordKind::Item, shown) is Some
                && after.record(session_id, RecordKind::Item, shown)->0.data == item
            &&& shown != item_id ==> after.record(session_id, RecordKind::Item, shown)
                == store.record(session_id, RecordKind::Item, shown)
            &&& times_added(after.outbox, session_id, shown) == times_added(
                store.outbox,
                session_id,
                shown,
            ) + if shown == item_id && new {
                1nat
            } else {
                0nat
            }
        }),
{
    let item_id = item.field("id"@).text()->0;
    let key = record_key(session_id, RecordKind::Item, shown);
    let kept = match store.record(session_id, RecordKind::Item, item_id) {
        Some(row) => row.turn_id,
        None => turn_id,
    };
    let row = RecordView {
        session_id,
        kind: RecordKind::Item,
        id: item_id,
        turn_id: kept,
        data: item,
    };
    let saved = store.saved(ChangeView::Record(row));
    lemma_put_position::<Record>(store.records, row, key);
    lemma_put_lookup::<Record>(store.records, row, key);
    lemma_triple_key(
        session_id,
        kind_word(RecordKind::Item),
        shown,
        session_id,
        kind_word(RecordKind::Item),
        item_id,
    );
    let index = output_index(saved.records, session_id, turn_id, item_id);
    lemma_added_events(session_id, turn_id, item, index, shown);
    let added_event = item_event(
        "agent.session.turn.item.added"@,
        session_id,
        turn_id,
        item,
        index,
    );
    let done_event = item_event(
        "agent.session.turn.item.done"@,
        session_id,
        turn_id,
        item,
        index,
    );
    let spoken_event = text_event(session_id, turn_id, item, index);
    lemma_times_added_push(
        store.outbox,
        EffectView::Save(ChangeView::Record(row)),
        session_id,
        shown,
    );
    let added = if store.record(session_id, RecordKind::Item, item_id) is None {
        lemma_times_added_push(
            saved.outbox,
            EffectView::Publish(added_event),
            session_id,
            shown,
        );
        saved.published(added_event)
    } else {
        saved
    };
    let spoken = if done && item.field("role"@) == JsonView::Text("assistant"@) {
        lemma_times_added_push(
            added.outbox,
            EffectView::Publish(spoken_event),
            session_id,
            shown,
        );
        added.published(spoken_event)
    } else {
        added
    };
    if done && !is_input(item) {
        lemma_times_added_push(
            spoken.outbox,
            EffectView::Publish(done_event),
            session_id,
            shown,
        );
    }
}

/// The public session of a thread depends on the public forms alone.
proof fn lemma_same_public_session(
    a: StoreView,
    b: StoreView,
    sessions: Seq<SessionRowView>,
    thread_id: Seq<char>,
)
    requires
        a.public_sessions == b.public_sessions,
    ensures
        public_session_of_thread(a, sessions, thread_id) == public_session_of_thread(
            b,
            sessions,
            thread_id,
        ),
    decreases sessions.len(),
{
    if sessions.len() > 0 {
        lemma_same_public_session(a, b, sessions.drop_last(), thread_id);
    }
}

/// The ID of the answer to a function call is not that of the call.
proof fn lemma_output_id_differs(turn_id: Seq<char>, item_id: Seq<char>)
    ensures
        "output_"@ + public_item_id(turn_id, item_id) != public_item_id(turn_id, item_id),
{
    reveal_strlit("output_");
    let id = public_item_id(turn_id, item_id);
    assert(("output_"@ + id).len() == id.len() + 7);
}

/// The methods of the notifications differ.
proof fn lemma_methods()
    ensures
        "item/started"@ != "turn/started"@,
        "item/started"@ != "turn/completed"@,
        "item/started"@ != "session.requires_action"@,
        "item/completed"@ != "turn/started"@,
        "item/completed"@ != "turn/completed"@,
        "item/completed"@ != "session.requires_action"@,
        "item/completed"@ != "item/started"@,
{
    reveal_strlit("item/started");
    reveal_strlit("item/completed");
    reveal_strlit("turn/started");
    reveal_strlit("turn/completed");
    reveal_strlit("session.requires_action");
    assert("item/started"@[0] == 'i' && "item/completed"@[0] == 'i');
    assert("turn/started"@[0] == 't' && "turn/completed"@[0] == 't');
    assert("session.requires_action"@[0] == 's');
    assert("item/started"@.len() == 12 && "item/completed"@.len() == 14);
}

/// An item that the backend tells of as started and then as completed is one
/// record, which holds the item as completed in the place where it was first
/// saved. It is announced as added once, and not again when it completes.
pub proof fn law_completed_item_keeps_its_place(
    store: StoreView,
    started: JsonView,
    completed: JsonView,
    now: u64,
    later: u64,
    session_id: Seq<char>,
    turn_id: Seq<char>,
    item_id: Seq<char>,
)
    requires
        store.well_formed(),
        started.field("method"@) == JsonView::Text("item/started"@),
        completed.field("method"@) == JsonView::Text("item/completed"@),
        started.field("params"@).field("threadId"@).text() is Some,
        completed.field("params"@).field("threadId"@) == started.field("params"@).field(
            "threadId"@,
        ),
        public_session_of_thread(
            store,
            store.sessions,
            started.field("params"@).field("threadId"@).text()->0,
        ) == Some(session_id),
        started.field("params"@).field("turnId"@) == JsonView::Text(turn_id),
        completed.field("params"@).field("turnId"@) == JsonView::Text(turn_id),
        started.field("params"@).field("item"@).field("id"@) == JsonView::Text(item_id),
        completed.field("params"@).field("item"@).field("id"@) == JsonView::Text(item_id),
        item_content(started.field("params"@).field("item"@)) is Some,
        item_content(completed.field("params"@).field("item"@)) is Some,
    ensures
        ({
            let shown = public_item_id(turn_id, item_id);
            let key = record_key(session_id, RecordKind::Item, shown);
            let (first, begun) = notified(store, started, now);
            let (second, ended) = notified(first, completed, later);
            &&& begun is Ok
            &&& ended is Ok
            &&& position::<Record>(first.records, key) == match position::<Record>(
                store.records,
                key,
            ) {
                Some(i) => Some(i),
                None => Some(store.records.len() as int),
            }
            &&& position::<Record>(second.records, key) == position::<Record>(first.records, key)
            &&& forall|i: int|
                0 <= i < second.records.len() && Record::key(#[trigger] second.records[i]) == key
                    ==> Some(i) == position::<Record>(second.records, key)
            &&& second.record(session_id, RecordKind::Item, shown) is Some
            &&& Some(second.record(session_id, RecordKind::Item, shown)->0.data) == public_item(
                turn_id,
                item_id,
                completed.field("params"@).field("item"@),
                true,
            )
            &&& times_added(first.outbox, session_id, shown) == times_added(
                store.outbox,
                session_id,
                shown,
            ) + if store.record(session_id, RecordKind::Item, shown) is None {
                1nat
            } else {
                0nat
            }
            &&& times_added(second.outbox, session_id, shown) == times_added(
                first.outbox,
                session_id,
                shown,
            )
        }),
{
    let shown = public_item_id(turn_id, item_id);
    let key = record_key(session_id, RecordKind::Item, shown);
    let thread_id = started.field("params"@).field("threadId"@).text()->0;
    let opening = started.field("params"@).field("item"@);
    let closing = completed.field("params"@).field("item"@);
    let first = notified(store, started, now).0;
    let second = notified(first, completed, later).0;
    lemma_methods();
    lemma_public_item(turn_id, item_id, opening, false);
    lemma_public_item(turn_id, item_id, closing, true);
    lemma_output_id_differs(turn_id, item_id);
    let begun = public_item(turn_id, item_id, opening, false)->0;
    let ended = public_item(turn_id, item_id, closing, true)->0;
    let output = public_output(turn_id, item_id, closing);
    lemma_item_kept(store, session_id, turn_id, begun, false, shown);
    assert(first == item_published(store, session_id, turn_id, begun, false).0);
    lemma_same_public_session(store, first, store.sessions, thread_id);
    lemma_item_kept(first, session_id, turn_id, ended, true, shown);
    let closed = item_published(first, session_id, turn_id, ended, true).0;
    lemma_item_kept(closed, session_id, turn_id, output, true, shown);
    law_notifications_are_sound(store, started, now);
    law_notifications_are_sound(first, completed, later);
    lemma_position::<Record>(second.records, key);
    let at = position::<Record>(second.records, key)->0;
    assert forall|i: int|
        0 <= i < second.records.len() && Record::key(#[trigger] second.records[i])
            == key implies Some(i) == position::<Record>(second.records, key) by {
        if i != at {
            assert(Record::key(second.records[at]) == key);
        }
    }
}

/// Whether the backend tells that an item of a turn has started or, where `done`,
/// completed, in the thread of a public session.
pub open spec fn tells_of_item(
    store: StoreView,
    raw: JsonView,
    done: bool,
    session_id: Seq<char>,
    turn_id: Seq<char>,
    item_id: Seq<char>,
) -> bool {
    let params = raw.field("params"@);
    &&& raw.field("method"@) == JsonView::Text(
        if done {
            "item/completed"@
        } else {
            "item/started"@
        },
    )
    &&& params.field("threadId"@).text() is Some
    &&& public_session_of_thread(store, store.sessions, params.field("threadId"@).text()->0)
        == Some(session_id)
    &&& params.field("turnId"@) == JsonView::Text(turn_id)
    &&& params.field("item"@).field("id"@) == JsonView::Text(item_id)
}

/// What is recorded of an item that the backend tells of.
proof fn lemma_item_recorded(
    store: StoreView,
    raw: JsonView,
    now: u64,
    done: bool,
    session_id: Seq<char>,
    turn_id: Seq<char>,
    item_id: Seq<char>,
)
    requires
        tells_of_item(store, raw, done, session_id, turn_id, item_id),
        item_content(raw.field("params"@).field("item"@)) is Some,
    ensures
        ({
            let item = raw.field("params"@).field("item"@);
            let shown = "item_"@ + turn_id + "_"@ + item_id;
            let (after, result) = notified(store, raw, now);
            &&& result is Ok
            &&& after.record(session_id, RecordKind::Item, shown) is Some
            &&& Some(after.record(session_id, RecordKind::Item, shown)->0.data) == public_item(
                turn_id,
                item_id,
                item,
                done,
            )
            &&& done && is_function_call(item) ==> {
                &&& after.record(session_id, RecordKind::Item, "output_"@ + shown) is Some
                &&& after.record(session_id, RecordKind::Item, "output_"@ + shown)->0.data
                    == public_output(turn_id, item_id, item)
            }
        }),
{
    let item = raw.field("params"@).field("item"@);
    let shown = public_item_id(turn_id, item_id);
    lemma_methods();
    lemma_public_item(turn_id, item_id, item, done);
    lemma_output_id_differs(turn_id, item_id);
    let public = public_item(turn_id, item_id, item, done)->0;
    let output = public_output(turn_id, item_id, item);
    lemma_item_kept(store, session_id, turn_id, public, done, shown);
    let told = item_published(store, session_id, turn_id, public, done).0;
    lemma_item_kept(told, session_id, turn_id, output, true, shown);
    lemma_item_kept(told, session_id, turn_id, output, true, "output_"@ + shown);
}

/// The parts of a summary, one for one.
proof fn lemma_summary_parts(summary: Seq<JsonView>)
    ensures
        summary_texts(summary) is Array,
        summary_texts(summary).elements().len() == summary.len(),
        forall|i: int|
            0 <= i < summary.len() ==> {
                let part = #[trigger] summary_texts(summary).elements()[i];
                &&& part.field("type"@) == JsonView::Text("summary_text"@)
                &&& part.field("text"@) == summary[i]
            },
    decreases summary.len(),
{
    if summary.len() > 0 {
        let front = summary.drop_last();
        lemma_summary_parts(front);
        lemma_item_names();
        broadcast use group_object_reads;

        let parts = summary_texts(summary).elements();
        assert(parts == summary_texts(front).elements().push(parts.last()));
        assert forall|i: int| 0 <= i < summary.len() implies {
            let part = #[trigger] parts[i];
            &&& part.field("type"@) == JsonView::Text("summary_text"@)
            &&& part.field("text"@) == summary[i]
        } by {
            if i < front.len() {
                assert(parts[i] == summary_texts(front).elements()[i]);
                assert(front[i] == summary[i]);
            }
        }
    }
}

/// Reasoning that the backend tells of is read back with every part of its
/// summary, in order, and nothing else.
pub proof fn law_reasoning_keeps_every_part(
    store: StoreView,
    raw: JsonView,
    now: u64,
    done: bool,
    session_id: Seq<char>,
    turn_id: Seq<char>,
    item_id: Seq<char>,
)
    requires
        tells_of_item(store, raw, done, session_id, turn_id, item_id),
        raw.field("params"@).field("item"@).field("type"@) == JsonView::Text("reasoning"@),
    ensures
        ({
            let summary = raw.field("params"@).field("item"@).field("summary"@).elements();
            let row = notified(store, raw, now).0.record(
                session_id,
                RecordKind::Item,
                "item_"@ + turn_id + "_"@ + item_id,
            );
            &&& row is Some
            &&& row->0.data.field("type"@) == JsonView::Text("reasoning"@)
            &&& row->0.data.field("summary"@) is Array
            &&& row->0.data.field("summary"@).elements().len() == summary.len()
            &&& forall|i: int|
                0 <= i < summary.len() ==> {
                    let part = #[trigger] row->0.data.field("summary"@).elements()[i];
                    &&& part.field("type"@) == JsonView::Text("summary_text"@)
                    &&& part.field("text"@) == summary[i]
                }
        }),
{
    let item = raw.field("params"@).field("item"@);
    lemma_item_types();
    lemma_item_recorded(store, raw, now, done, session_id, turn_id, item_id);
    lemma_summary_parts(item.field("summary"@).elements());
    lemma_item_names();
    broadcast use group_object_reads;

}

/// The parts of a message that have a text, in order.
pub open spec fn texts_of(content: Seq<JsonView>) -> Seq<Seq<char>>
    decreases content.len(),
{
    if content.len() == 0 {
        Seq::empty()
    } else {
        let rest = texts_of(content.skip(1));
        match content[0].field("text"@) {
            JsonView::Text(text) => seq![text] + rest,
            _ => rest,
        }
    }
}

/// The texts of parts to which one more is added.
proof fn lemma_texts_of_push(content: Seq<JsonView>, part: JsonView)
    ensures
        texts_of(content.push(part)) == match part.field("text"@) {
            JsonView::Text(text) => texts_of(content).push(text),
            _ => texts_of(content),
        },
    decreases content.len(),
{
    let after = content.push(part);
    if content.len() == 0 {
        assert(after.skip(1) =~= Seq::<JsonView>::empty());
        assert(texts_of(after.skip(1)) =~= Seq::<Seq<char>>::empty());
        match part.field("text"@) {
            JsonView::Text(text) => {
                assert(texts_of(after) =~= seq![text]);
                assert(texts_of(content).push(text) =~= seq![text]);
            },
            _ => {},
        }
    } else {
        assert(after.skip(1) =~= content.skip(1).push(part));
        assert(after[0] == content[0]);
        lemma_texts_of_push(content.skip(1), part);
        assert(texts_of(after) =~= match part.field("text"@) {
            JsonView::Text(text) => texts_of(content).push(text),
            _ => texts_of(content),
        });
    }
}

/// The parts of what a user said, one for each text.
proof fn lemma_input_parts(content: Seq<JsonView>)
    ensures
        input_texts(content) is Array,
        input_texts(content).elements().len() == texts_of(content).len(),
        forall|i: int|
            0 <= i < texts_of(content).len() ==> {
                let part = #[trigger] input_texts(content).elements()[i];
                &&& part.field("type"@) == JsonView::Text("input_text"@)
                &&& part.field("text"@) == JsonView::Text(texts_of(content)[i])
            },
    decreases content.len(),
{
    if content.len() > 0 {
        let front = content.drop_last();
        lemma_input_parts(front);
        assert(front.push(content.last()) =~= content);
        lemma_texts_of_push(front, content.last());
        lemma_item_names();
        broadcast use group_object_reads;

        let parts = input_texts(content).elements();
        assert forall|i: int| 0 <= i < texts_of(content).len() implies {
            let part = #[trigger] parts[i];
            &&& part.field("type"@) == JsonView::Text("input_text"@)
            &&& part.field("text"@) == JsonView::Text(texts_of(content)[i])
        } by {
            if i < texts_of(front).len() {
                assert(parts[i] == input_texts(front).elements()[i]);
            }
        }
    }
}

/// What a user said is read back with every text of it, in order, and is complete
/// from the start.
pub proof fn law_user_message_keeps_every_text(
    store: StoreView,
    raw: JsonView,
    now: u64,
    done: bool,
    session_id: Seq<char>,
    turn_id: Seq<char>,
    item_id: Seq<char>,
)
    requires
        tells_of_item(store, raw, done, session_id, turn_id, item_id),
        raw.field("params"@).field("item"@).field("type"@) == JsonView::Text("userMessage"@),
    ensures
        ({
            let texts = texts_of(
                raw.field("params"@).field("item"@).field("content"@).elements(),
            );
            let row = notified(store, raw, now).0.record(
                session_id,
                RecordKind::Item,
                "item_"@ + turn_id + "_"@ + item_id,
            );
            &&& row is Some
            &&& row->0.data.field("type"@) == JsonView::Text("message"@)
            &&& row->0.data.field("role"@) == JsonView::Text("user"@)
            &&& row->0.data.field("status"@) == JsonView::Text("completed"@)
            &&& row->0.data.get("phase"@) == Some(JsonView::Null)
            &&& row->0.data.field("content"@) is Array
            &&& row->0.data.field("content"@).elements().len() == texts.len()
            &&& forall|i: int|
                0 <= i < texts.len() ==> {
                    let part = #[trigger] row->0.data.field("content"@).elements()[i];
                    &&& part.field("type"@) == JsonView::Text("input_text"@)
                    &&& part.field("text"@) == JsonView::Text(texts[i])
                }
        }),
{
    let item = raw.field("params"@).field("item"@);
    lemma_item_types();
    lemma_item_recorded(store, raw, now, done, session_id, turn_id, item_id);
    lemma_input_parts(item.field("content"@).elements());
    lemma_item_names();
    broadcast use group_object_reads;

}

/// What the model said is read back as it said it: one text, with its phase.
pub proof fn law_agent_message_keeps_its_text(
    store: StoreView,
    raw: JsonView,
    now: u64,
    done: bool,
    session_id: Seq<char>,
    turn_id: Seq<char>,
    item_id: Seq<char>,
)
    requires
        tells_of_item(store, raw, done, session_id, turn_id, item_id),
        raw.field("params"@).field("item"@).field("type"@) == JsonView::Text("agentMessage"@),
    ensures
        ({
            let item = raw.field("params"@).field("item"@);
            let row = notified(store, raw, now).0.record(
                session_id,
                RecordKind::Item,
                "item_"@ + turn_id + "_"@ + item_id,
            );
            &&& row is Some
            &&& row->0.data.field("type"@) == JsonView::Text("message"@)
            &&& row->0.data.field("role"@) == JsonView::Text("assistant"@)
            &&& row->0.data.get("phase"@) == Some(item.field("phase"@))
            &&& row->0.data.field("content"@).elements().len() == 1
            &&& row->0.data.field("content"@).elements()[0].field("type"@) == JsonView::Text(
                "output_text"@,
            )
            &&& row->0.data.field("content"@).elements()[0].field("text"@) == item.field("text"@)
        }),
{
    lemma_item_types();
    lemma_item_recorded(store, raw, now, done, session_id, turn_id, item_id);
    lemma_item_names();
    broadcast use group_object_reads;

}

/// A function call is read back with the function that the model called and what it
/// was called with.
pub proof fn law_function_call_keeps_what_was_called(
    store: StoreView,
    raw: JsonView,
    now: u64,
    done: bool,
    session_id: Seq<char>,
    turn_id: Seq<char>,
    item_id: Seq<char>,
)
    requires
        tells_of_item(store, raw, done, session_id, turn_id, item_id),
        raw.field("params"@).field("item"@).field("type"@) == JsonView::Text("dynamicToolCall"@),
    ensures
        ({
            let item = raw.field("params"@).field("item"@);
            let row = notified(store, raw, now).0.record(
                session_id,
                RecordKind::Item,
                "item_"@ + turn_id + "_"@ + item_id,
            );
            &&& row is Some
            &&& row->0.data.field("type"@) == JsonView::Text("function_call"@)
            &&& row->0.data.field("call_id"@) == JsonView::Text(item_id)
            &&& row->0.data.get("name"@) == Some(item.field("tool"@))
            &&& row->0.data.get("arguments"@) == Some(item.field("arguments"@))
        }),
{
    lemma_item_types();
    lemma_item_recorded(store, raw, now, done, session_id, turn_id, item_id);
    lemma_item_names();
    broadcast use group_object_reads;

}

/// Every item is recorded under its own ID for the turn that it is of, in progress
/// until it completes; only a function call that failed ends otherwise than
/// completed. Items of no known type are not recorded.
pub proof fn law_item_is_recorded_for_its_turn(
    store: StoreView,
    raw: JsonView,
    now: u64,
    done: bool,
    session_id: Seq<char>,
    turn_id: Seq<char>,
    item_id: Seq<char>,
)
    requires
        tells_of_item(store, raw, done, session_id, turn_id, item_id),
    ensures
        ({
            let item = raw.field("params"@).field("item"@);
            let kind = item.field("type"@);
            let known = kind == JsonView::Text("userMessage"@) || kind == JsonView::Text(
                "agentMessage"@,
            ) || kind == JsonView::Text("reasoning"@) || kind == JsonView::Text(
                "dynamicToolCall"@,
            );
            let shown = "item_"@ + turn_id + "_"@ + item_id;
            let (after, result) = notified(store, raw, now);
            let row = after.record(session_id, RecordKind::Item, shown);
            &&& result is Ok
            &&& !known ==> after == store
            &&& known ==> {
                &&& row is Some
                &&& row->0.data.field("id"@) == JsonView::Text(shown)
                &&& row->0.data.field("turn_id"@) == JsonView::Text(turn_id)
                &&& kind != JsonView::Text("userMessage"@) && !done ==> row->0.data.field(
                    "status"@,
                ) == JsonView::Text("in_progress"@)
                &&& done && kind == JsonView::Text("dynamicToolCall"@) && item.field("status"@)
                    == JsonView::Text("failed"@) ==> row->0.data.field("status"@)
                    == JsonView::Text("failed"@)
                &&& done && !(kind == JsonView::Text("dynamicToolCall"@) && item.field("status"@)
                    == JsonView::Text("failed"@)) ==> row->0.data.field("status"@)
                    == JsonView::Text("completed"@)
            }
        }),
{
    let item = raw.field("params"@).field("item"@);
    lemma_item_types();
    lemma_methods();
    if item_content(item) is Some {
        lemma_item_recorded(store, raw, now, done, session_id, turn_id, item_id);
        lemma_item_names();
        broadcast use group_object_reads;

    }
}

/// Texts, one line for each.
pub open spec fn lines(texts: Seq<Seq<char>>) -> Seq<char>
    decreases texts.len(),
{
    if texts.len() == 0 {
        Seq::empty()
    } else if texts.len() == 1 {
        texts[0]
    } else {
        texts[0] + seq!['\n'] + lines(texts.skip(1))
    }
}

/// Lines to which one more is added.
proof fn lemma_lines_push(texts: Seq<Seq<char>>, text: Seq<char>)
    ensures
        lines(texts.push(text)) == if texts.len() == 0 {
            text
        } else {
            lines(texts) + seq!['\n'] + text
        },
    decreases texts.len(),
{
    let after = texts.push(text);
    if texts.len() == 1 {
        assert(after.skip(1) =~= seq![text]);
        assert(lines(after.skip(1)) == text);
        assert(after[0] == texts[0]);
    } else if texts.len() > 1 {
        assert(after.skip(1) =~= texts.skip(1).push(text));
        assert(after[0] == texts[0]);
        lemma_lines_push(texts.skip(1), text);
        assert(lines(after) =~= lines(texts) + seq!['\n'] + text);
    }
}

/// What is made of the texts of an answer.
proof fn lemma_output_lines(content: Seq<JsonView>)
    ensures
        output_texts(content) == if texts_of(content).len() == 0 {
            None
        } else {
            Some(lines(texts_of(content)))
        },
    decreases content.len(),
{
    if content.len() > 0 {
        let front = content.drop_last();
        lemma_output_lines(front);
        assert(front.push(content.last()) =~= content);
        lemma_texts_of_push(front, content.last());
        match content.last().field("text"@) {
            JsonView::Text(text) => {
                lemma_lines_push(texts_of(front), text);
                reveal_strlit("\n");
                assert("\n"@ =~= seq!['\n']);
            },
            _ => {},
        }
    }
}

/// The answer to a function call is recorded beside the call when it completes: its
/// texts, line by line, as output where it succeeded and as error where it failed.
pub proof fn law_function_output_is_recorded(
    store: StoreView,
    raw: JsonView,
    now: u64,
    session_id: Seq<char>,
    turn_id: Seq<char>,
    item_id: Seq<char>,
)
    requires
        tells_of_item(store, raw, true, session_id, turn_id, item_id),
        raw.field("params"@).field("item"@).field("type"@) == JsonView::Text("dynamicToolCall"@),
    ensures
        ({
            let item = raw.field("params"@).field("item"@);
            let failed = item.field("success"@) == JsonView::Bool(false) || item.field("status"@)
                == JsonView::Text("failed"@);
            let said = JsonView::Text(lines(texts_of(item.field("contentItems"@).elements())));
            let shown = "output_"@ + ("item_"@ + turn_id + "_"@ + item_id);
            let row = notified(store, raw, now).0.record(session_id, RecordKind::Item, shown);
            &&& row is Some
            &&& row->0.data.field("id"@) == JsonView::Text(shown)
            &&& row->0.data.field("type"@) == JsonView::Text("function_call_output"@)
            &&& row->0.data.field("turn_id"@) == JsonView::Text(turn_id)
            &&& row->0.data.field("call_id"@) == JsonView::Text(item_id)
            &&& failed ==> {
                &&& row->0.data.field("status"@) == JsonView::Text("failed"@)
                &&& row->0.data.field("error"@) == said
                &&& row->0.data.get("output"@) == Some(JsonView::Null)
            }
            &&& !failed ==> {
                &&& row->0.data.field("status"@) == JsonView::Text("completed"@)
                &&& row->0.data.field("output"@) == said
                &&& row->0.data.get("error"@) == Some(JsonView::Null)
            }
        }),
{
    let item = raw.field("params"@).field("item"@);
    lemma_item_types();
    lemma_item_recorded(store, raw, now, true, session_id, turn_id, item_id);
    lemma_output_lines(item.field("contentItems"@).elements());
    reveal_strlit("");
    assert(""@ =~= Seq::<char>::empty());
    lemma_item_names();
    broadcast use group_object_reads;

}

/// The words of public items differ.
proof fn lemma_public_words()
    ensures
        "user"@ != "assistant"@,
        "user"@ != "message"@,
        "user"@ != "reasoning"@,
        "user"@ != "function_call"@,
        "user"@ != "function_call_output"@,
        "assistant"@ != "message"@,
        "assistant"@ != "reasoning"@,
        "assistant"@ != "function_call"@,
        "assistant"@ != "function_call_output"@,
        "message"@ != "reasoning"@,
        "message"@ != "function_call"@,
        "message"@ != "function_call_output"@,
        "reasoning"@ != "function_call"@,
        "reasoning"@ != "function_call_output"@,
        "function_call"@ != "function_call_output"@,
{
    reveal_strlit("user");
    reveal_strlit("assistant");
    reveal_strlit("message");
    reveal_strlit("reasoning");
    reveal_strlit("function_call");
    reveal_strlit("function_call_output");
    assert("user"@.len() == 4);
    assert("assistant"@.len() == 9);
    assert("message"@.len() == 7);
    assert("reasoning"@.len() == 9);
    assert("function_call"@.len() == 13);
    assert("function_call_output"@.len() == 20);
    assert("assistant"@[0] != "reasoning"@[0]);
}


/// Whether a record is one of the model's outputs in a turn: an item of the turn
/// that is neither what a user said nor the answer to a function call.
pub open spec fn counts_as_output(
    session_id: Seq<char>,
    turn_id: Seq<char>,
) -> spec_fn(RecordView) -> bool {
    |row: RecordView|
        {
            &&& row.session_id == session_id
            &&& row.kind is Item
            &&& row.turn_id == turn_id
            &&& row.data.field("role"@) != JsonView::Text("user"@)
            &&& row.data.field("type"@) != JsonView::Null
            &&& row.data.field("type"@) != JsonView::Text("function_call_output"@)
        }
}

/// The outputs of a turn are those records that count as such.
proof fn lemma_outputs_counted(
    records: Seq<RecordView>,
    session_id: Seq<char>,
    turn_id: Seq<char>,
)
    ensures
        output_count(records, session_id, turn_id) == records.filter(
            counts_as_output(session_id, turn_id),
        ).len(),
    decreases records.len(),
{
    reveal(Seq::filter);
    if records.len() > 0 {
        lemma_outputs_counted(records.drop_last(), session_id, turn_id);
    }
}

/// What is announced of an item, event by event.
proof fn lemma_item_announced(
    store: StoreView,
    session_id: Seq<char>,
    turn_id: Seq<char>,
    item: JsonView,
    done: bool,
)
    requires
        item.field("id"@).text() is Some,
    ensures
        ({
            let item_id = item.field("id"@).text()->0;
            let after = item_published(store, session_id, turn_id, item, done).0;
            let new = store.record(session_id, RecordKind::Item, item_id) is None;
            let at = position::<Record>(
                after.records,
                record_key(session_id, RecordKind::Item, item_id),
            );
            let number = after.records.take(at->0 + 1).filter(
                counts_as_output(session_id, turn_id),
            ).len() - 1;
            let n = store.outbox.len() as int;
            let assistant = item.field("role"@) == JsonView::Text("assistant"@);
            let input = item.field("role"@) == JsonView::Text("user"@) || item.field("type"@)
                == JsonView::Text("function_call_output"@);
            let first = n + 1 + if new {
                1int
            } else {
                0int
            };
            let second = first + if done && assistant {
                1int
            } else {
                0int
            };
            let end = second + if done && !input {
                1int
            } else {
                0int
            };
            &&& at is Some
            &&& store.outbox.is_prefix_of(after.outbox)
            &&& after.outbox.len() == end
            &&& after.outbox[n] is Save
            &&& new ==> after.outbox[n + 1] == EffectView::Publish(
                item_event(
                    "agent.session.turn.item.added"@,
                    session_id,
                    turn_id,
                    item,
                    number,
                ),
            )
            &&& done && assistant ==> after.outbox[first] == EffectView::Publish(
                text_event(session_id, turn_id, item, number),
            )
            &&& done && !input ==> after.outbox[second] == EffectView::Publish(
                item_event("agent.session.turn.item.done"@, session_id, turn_id, item, number),
            )
        }),
{
    let item_id = item.field("id"@).text()->0;
    let after = item_published(store, session_id, turn_id, item, done).0;
    lemma_item_kept(store, session_id, turn_id, item, done, item_id);
    let at = position::<Record>(
        after.records,
        record_key(session_id, RecordKind::Item, item_id),
    )->0;
    lemma_outputs_counted(after.records.take(at + 1), session_id, turn_id);
}

/// How the events about an item read.
proof fn lemma_item_event_reads(
    kind: Seq<char>,
    session_id: Seq<char>,
    turn_id: Seq<char>,
    item: JsonView,
    index: int,
)
    ensures
        ({
            let event = item_event(kind, session_id, turn_id, item, index);
            let spoken = text_event(session_id, turn_id, item, index);
            let input = item.field("role"@) == JsonView::Text("user"@) || item.field("type"@)
                == JsonView::Text("function_call_output"@);
            &&& event.field("type"@) == JsonView::Text(kind)
            &&& event.field("session_id"@) == JsonView::Text(session_id)
            &&& event.field("turn_id"@) == JsonView::Text(turn_id)
            &&& event.field("item"@) == item
            &&& event.get("output_index"@) == Some(
                if input {
                    JsonView::Null
                } else {
                    signed_number(index)
                },
            )
            &&& spoken.field("type"@) == JsonView::Text("agent.session.turn.output_text.done"@)
            &&& spoken.field("session_id"@) == JsonView::Text(session_id)
            &&& spoken.field("turn_id"@) == JsonView::Text(turn_id)
            &&& spoken.field("item_id"@) == item.field("id"@)
            &&& spoken.field("output_index"@) == signed_number(index)
            &&& spoken.field("content_index"@) == signed_number(0)
            &&& item.field("content"@).elements().len() > 0 ==> spoken.field("text"@)
                == item.field("content"@).elements()[0].field("text"@)
        }),
{
    lemma_event_fields();
    broadcast use group_object_reads;

}

/// Who a public item is from, and what it says.
proof fn lemma_public_roles(turn_id: Seq<char>, item_id: Seq<char>, item: JsonView, done: bool)
    requires
        public_item(turn_id, item_id, item, done) is Some,
    ensures
        ({
            let public = public_item(turn_id, item_id, item, done)->0;
            &&& public.field("role"@) == JsonView::Text("user"@) <==> item.field("type"@)
                == JsonView::Text("userMessage"@)
            &&& public.field("role"@) == JsonView::Text("assistant"@) <==> item.field("type"@)
                == JsonView::Text("agentMessage"@)
            &&& public.field("type"@) != JsonView::Text("function_call_output"@)
            &&& item.field("type"@) == JsonView::Text("agentMessage"@) ==> public.field(
                "content"@,
            ).elements().len() == 1 && public.field("content"@).elements()[0].field("text"@)
                == item.field("text"@)
        }),
{
    lemma_item_types();
    lemma_item_names();
    lemma_public_words();
    broadcast use group_object_reads;

}

/// An item is announced as added when it is new and as done when it completes,
/// after it was saved, each time as it is recorded and with its number among the
/// outputs of its turn. What a user said has no number and is never announced as
/// done. A text that the model has completed is announced by itself.
pub proof fn law_items_are_announced_as_recorded(
    store: StoreView,
    raw: JsonView,
    now: u64,
    done: bool,
    session_id: Seq<char>,
    turn_id: Seq<char>,
    item_id: Seq<char>,
)
    requires
        tells_of_item(store, raw, done, session_id, turn_id, item_id),
        ({
            let kind = raw.field("params"@).field("item"@).field("type"@);
            kind == JsonView::Text("userMessage"@) || kind == JsonView::Text("agentMessage"@)
                || kind == JsonView::Text("reasoning"@) || kind == JsonView::Text(
                "dynamicToolCall"@,
            )
        }),
    ensures
        ({
            let item = raw.field("params"@).field("item"@);
            let user = item.field("type"@) == JsonView::Text("userMessage"@);
            let agent = item.field("type"@) == JsonView::Text("agentMessage"@);
            let shown = "item_"@ + turn_id + "_"@ + item_id;
            let after = notified(store, raw, now).0;
            let row = after.record(session_id, RecordKind::Item, shown)->0;
            let new = store.record(session_id, RecordKind::Item, shown) is None;
            let n = store.outbox.len() as int;
            let first = n + 1 + if new {
                1int
            } else {
                0int
            };
            let second = first + if done && agent {
                1int
            } else {
                0int
            };
            let end = second + if done && !user {
                1int
            } else {
                0int
            };
            &&& store.outbox.is_prefix_of(after.outbox)
            &&& after.outbox[n] is Save
            &&& after.outbox.len() >= end
            &&& !done || item.field("type"@) != JsonView::Text("dynamicToolCall"@)
                ==> after.outbox.len() == end
            &&& new ==> {
                let event = after.outbox[n + 1]->Publish_0;
                &&& after.outbox[n + 1] is Publish
                &&& event.field("type"@) == JsonView::Text("agent.session.turn.item.added"@)
                &&& event.field("session_id"@) == JsonView::Text(session_id)
                &&& event.field("turn_id"@) == JsonView::Text(turn_id)
                &&& event.field("item"@) == row.data
                &&& user ==> event.get("output_index"@) == Some(JsonView::Null)
            }
            &&& done && agent ==> {
                let event = after.outbox[first]->Publish_0;
                &&& after.outbox[first] is Publish
                &&& event.field("type"@) == JsonView::Text(
                    "agent.session.turn.output_text.done"@,
                )
                &&& event.field("session_id"@) == JsonView::Text(session_id)
                &&& event.field("turn_id"@) == JsonView::Text(turn_id)
                &&& event.field("item_id"@) == JsonView::Text(shown)
                &&& event.field("content_index"@) == signed_number(0)
                &&& event.field("text"@) == item.field("text"@)
            }
            &&& done && !user ==> {
                let event = after.outbox[second]->Publish_0;
                &&& after.outbox[second] is Publish
                &&& event.field("type"@) == JsonView::Text("agent.session.turn.item.done"@)
                &&& event.field("session_id"@) == JsonView::Text(session_id)
                &&& event.field("turn_id"@) == JsonView::Text(turn_id)
                &&& event.field("item"@) == row.data
            }
            &&& !done || item.field("type"@) != JsonView::Text("dynamicToolCall"@) ==> {
                let at = position::<Record>(
                    after.records,
                    record_key(session_id, RecordKind::Item, shown),
                );
                let number = signed_number(
                    after.records.take(at->0 + 1).filter(
                        counts_as_output(session_id, turn_id),
                    ).len() - 1,
                );
                &&& at is Some
                &&& new && !user ==> after.outbox[n + 1]->Publish_0.field("output_index"@) == number
                &&& done && agent ==> after.outbox[first]->Publish_0.field("output_index"@)
                    == number
                &&& done && !user ==> after.outbox[second]->Publish_0.field("output_index"@)
                    == number
            }
        }),
{
    let item = raw.field("params"@).field("item"@);
    let shown = public_item_id(turn_id, item_id);
    lemma_item_types();
    lemma_methods();
    lemma_item_recorded(store, raw, now, done, session_id, turn_id, item_id);
    lemma_public_item(turn_id, item_id, item, done);
    let public = public_item(turn_id, item_id, item, done)->0;
    lemma_item_announced(store, session_id, turn_id, public, done);
    let told = item_published(store, session_id, turn_id, public, done).0;
    let after = notified(store, raw, now).0;
    let at = position::<Record>(
        told.records,
        record_key(session_id, RecordKind::Item, shown),
    )->0;
    let number = told.records.take(at + 1).filter(counts_as_output(session_id, turn_id)).len() - 1;
    lemma_item_event_reads(
        "agent.session.turn.item.added"@,
        session_id,
        turn_id,
        public,
        number,
    );
    lemma_item_event_reads("agent.session.turn.item.done"@, session_id, turn_id, public, number);
    lemma_public_roles(turn_id, item_id, item, done);
    if done && is_function_call(item) {
        let output = public_output(turn_id, item_id, item);
        lemma_output_reads(turn_id, item_id, item);
        lemma_item_announced(told, session_id, turn_id, output, true);
        assert forall|i: int| 0 <= i < told.outbox.len() implies told.outbox[i]
            == #[trigger] after.outbox[i] by {}
    }
}

/// The output of a function that was called is announced once, behind the call, as it
/// is recorded; it counts as no output of the turn.
pub proof fn law_function_outputs_are_announced(
    store: StoreView,
    raw: JsonView,
    now: u64,
    session_id: Seq<char>,
    turn_id: Seq<char>,
    item_id: Seq<char>,
)
    requires
        tells_of_item(store, raw, true, session_id, turn_id, item_id),
        raw.field("params"@).field("item"@).field("type"@) == JsonView::Text("dynamicToolCall"@),
    ensures
        ({
            let call = "item_"@ + turn_id + "_"@ + item_id;
            let shown = "output_"@ + call;
            let after = notified(store, raw, now).0;
            let row = after.record(session_id, RecordKind::Item, shown);
            let new_call = store.record(session_id, RecordKind::Item, call) is None;
            let new = store.record(session_id, RecordKind::Item, shown) is None;
            let n = store.outbox.len() + 2 + if new_call {
                1int
            } else {
                0int
            };
            let event = after.outbox[n + 1]->Publish_0;
            &&& row is Some
            &&& after.outbox[n] is Save
            &&& !new ==> after.outbox.len() == n + 1
            &&& new ==> {
                &&& after.outbox.len() == n + 2
                &&& after.outbox[n + 1] is Publish
                &&& event.field("type"@) == JsonView::Text("agent.session.turn.item.added"@)
                &&& event.field("session_id"@) == JsonView::Text(session_id)
                &&& event.field("turn_id"@) == JsonView::Text(turn_id)
                &&& event.field("item"@) == row->0.data
                &&& event.get("output_index"@) == Some(JsonView::Null)
            }
        }),
{
    let item = raw.field("params"@).field("item"@);
    let call = public_item_id(turn_id, item_id);
    let shown = "output_"@ + call;
    lemma_item_types();
    lemma_methods();
    lemma_public_item(turn_id, item_id, item, true);
    let public = public_item(turn_id, item_id, item, true)->0;
    let output = public_output(turn_id, item_id, item);
    lemma_public_roles(turn_id, item_id, item, true);
    lemma_output_reads(turn_id, item_id, item);
    lemma_item_announced(store, session_id, turn_id, public, true);
    lemma_item_kept(store, session_id, turn_id, public, true, shown);
    let told = item_published(store, session_id, turn_id, public, true).0;
    lemma_item_announced(told, session_id, turn_id, output, true);
    lemma_item_kept(told, session_id, turn_id, output, true, shown);
    let after = item_published(told, session_id, turn_id, output, true).0;
    assert(shown != call) by {
        reveal_strlit("output_");
        assert("output_"@.len() == 7);
        assert(shown.len() == 7 + call.len());
    }
    let at = position::<Record>(
        after.records,
        record_key(session_id, RecordKind::Item, shown),
    )->0;
    let number = after.records.take(at + 1).filter(counts_as_output(session_id, turn_id)).len() - 1;
    lemma_item_event_reads(
        "agent.session.turn.item.added"@,
        session_id,
        turn_id,
        output,
        number,
    );
}

/// What the output of a function is known by.
proof fn lemma_output_reads(turn_id: Seq<char>, item_id: Seq<char>, item: JsonView)
    ensures
        ({
            let output = public_output(turn_id, item_id, item);
            &&& output.field("id"@) == JsonView::Text(
                "output_"@ + public_item_id(turn_id, item_id),
            )
            &&& output.field("type"@) == JsonView::Text("function_call_output"@)
            &&& output.field("role"@) == JsonView::Null
        }),
{
    lemma_item_names();
    broadcast use group_object_reads;

}

} // verus!
