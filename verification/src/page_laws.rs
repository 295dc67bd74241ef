//! What holds of the pages in which records are listed.
use crate::json::group_object_reads;
use crate::json::JsonView;
use crate::names::lemma_page_names;
use crate::pages::cursor;
use crate::pages::law_pages_continue;
use crate::pages::listed;
use crate::pages::matching;
use crate::pages::page_document;
use crate::pages::page_of;
use crate::pages::PageView;
use crate::pages::rows_from;
use crate::pages::turn_of;
use crate::soundness::lemma_kinds_differ;
use crate::soundness::lemma_public_session_found;
use crate::soundness::lemma_record_found;
use crate::soundness::lemma_triple_key;
use crate::store::kind_word;
use crate::store::Record;
use crate::store::record_key;
use crate::store::RecordKind;
use crate::store::RecordView;
use crate::store::StoreView;
use crate::table::lemma_position;
use crate::table::position;
use crate::table::Row;
use vstd::prelude::*;

verus! {

/// Whether a record belongs in a list: one of the session and of the kind and, where
/// a turn is named, of that turn.
pub open spec fn belongs(
    session_id: Seq<char>,
    kind: RecordKind,
    turn_id: Option<Seq<char>>,
) -> spec_fn(RecordView) -> bool {
    |row: RecordView|
        row.session_id == session_id && row.kind == kind && match turn_id {
            Some(turn) => row.turn_id == turn,
            None => true,
        }
}

/// The documents of all records that belong in a list, as they were first saved.
pub open spec fn all_in_list(
    records: Seq<RecordView>,
    session_id: Seq<char>,
    kind: RecordKind,
    turn_id: Option<Seq<char>>,
) -> Seq<JsonView> {
    records.filter(belongs(session_id, kind, turn_id)).map_values(|row: RecordView| row.data)
}

/// What is listed is all that belongs in the list.
proof fn lemma_matching_is_all(
    records: Seq<RecordView>,
    session_id: Seq<char>,
    kind: RecordKind,
    turn_id: Option<Seq<char>>,
)
    ensures
        matching(records, session_id, kind, turn_id) == all_in_list(
            records,
            session_id,
            kind,
            turn_id,
        ),
    decreases records.len(),
{
    reveal(Seq::filter);
    let all = all_in_list(records, session_id, kind, turn_id);
    if records.len() > 0 {
        let front = records.drop_last();
        lemma_matching_is_all(front, session_id, kind, turn_id);
        let before = all_in_list(front, session_id, kind, turn_id);
        if belongs(session_id, kind, turn_id)(records.last()) {
            assert(all =~= before.push(records.last().data));
        } else {
            assert(all =~= before);
        }
    } else {
        assert(all =~= Seq::<JsonView>::empty());
    }
}

/// The elements of a list, one for one.
proof fn lemma_listed(rows: Seq<JsonView>)
    ensures
        listed(rows) == JsonView::Array(rows),
    decreases rows.len(),
{
    if rows.len() > 0 {
        lemma_listed(rows.drop_last());
        assert(rows.drop_last().push(rows.last()) =~= rows);
    } else {
        assert(rows =~= Seq::<JsonView>::empty());
    }
}

/// How a page reads.
proof fn lemma_page_reads(rows: Seq<JsonView>, size: nat)
    ensures
        ({
            let page = page_document(rows, size);
            let data = page.field("data"@).elements();
            &&& page.field("object"@) == JsonView::Text("list"@)
            &&& page.field("data"@) is Array
            &&& rows.len() <= size ==> data == rows
            &&& rows.len() > size ==> data == rows.take(size as int)
            &&& page.field("has_more"@) == JsonView::Bool(rows.len() > size)
            &&& data.len() == 0 ==> page.get("first_id"@) == Some(JsonView::Null)
                && page.get("last_id"@) == Some(JsonView::Null)
            &&& data.len() > 0 ==> page.field("first_id"@) == data[0].field("id"@)
                && page.field("last_id"@) == data[data.len() - 1].field("id"@)
        }),
{
    lemma_listed(rows);
    lemma_listed(rows.take(size as int));
    lemma_page_names();
    broadcast use group_object_reads;

}

/// How many records a client asks for: 20 where it does not say.
pub open spec fn asked_for(page: PageView) -> int {
    match page.limit {
        Some(limit) => limit as int,
        None => 20,
    }
}

/// The first page of a list holds the first records that belong in it, as many as
/// were asked for or as there are: the oldest first where that is the order, and
/// else the newest first. It says whether there are more, and where it begins and
/// ends.
pub proof fn law_first_page_holds_the_first_records(
    store: StoreView,
    id: Seq<char>,
    kind: RecordKind,
    page: PageView,
)
    requires
        page.after is None,
        page_of(store, id, kind, page) is Ok,
    ensures
        ({
            let read = page_of(store, id, kind, page)->Ok_0;
            let data = read.field("data"@).elements();
            let all = all_in_list(store.records, id, kind, page.turn_id);
            let rows = if page.order == Some("asc"@) {
                all
            } else {
                all.reverse()
            };
            let limit = asked_for(page);
            &&& 1 <= limit <= 100
            &&& read.field("object"@) == JsonView::Text("list"@)
            &&& read.field("data"@) is Array
            &&& data == if rows.len() <= limit {
                rows
            } else {
                rows.take(limit)
            }
            &&& read.field("has_more"@) == JsonView::Bool(rows.len() > limit)
            &&& data.len() == 0 ==> read.get("first_id"@) == Some(JsonView::Null)
                && read.get("last_id"@) == Some(JsonView::Null)
            &&& data.len() > 0 ==> read.field("first_id"@) == data[0].field("id"@)
                && read.field("last_id"@) == data[data.len() - 1].field("id"@)
        }),
{
    lemma_matching_is_all(store.records, id, kind, page.turn_id);
    lemma_page_reads(
        rows_from(store.records, id, kind, page, None),
        page.size() as nat,
    );
}

/// The page that is asked for after a record holds what comes behind it in the list,
/// wherever in the list the record stands.
pub proof fn law_next_page_holds_what_comes_behind(
    store: StoreView,
    id: Seq<char>,
    kind: RecordKind,
    page: PageView,
    n: int,
)
    requires
        store.well_formed(),
        page.after is None,
        page_of(store, id, kind, page) is Ok,
        0 <= n < all_in_list(store.records, id, kind, page.turn_id).len(),
    ensures
        ({
            let all = all_in_list(store.records, id, kind, page.turn_id);
            let rows = if page.order == Some("asc"@) {
                all
            } else {
                all.reverse()
            };
            let behind = rows.skip(n + 1);
            let next = PageView { after: rows[n].field("id"@).text(), ..page };
            let read = page_of(store, id, kind, next)->Ok_0;
            let data = read.field("data"@).elements();
            let limit = asked_for(page);
            &&& next.after is Some
            &&& page_of(store, id, kind, next) is Ok
            &&& data == if behind.len() <= limit {
                behind
            } else {
                behind.take(limit)
            }
            &&& read.field("has_more"@) == JsonView::Bool(behind.len() > limit)
            &&& data.len() > 0 ==> read.field("first_id"@) == data[0].field("id"@)
                && read.field("last_id"@) == data[data.len() - 1].field("id"@)
        }),
{
    lemma_matching_is_all(store.records, id, kind, page.turn_id);
    let rows = rows_from(store.records, id, kind, page, None);
    law_pages_continue(store.records, id, kind, page, None, n + 1);
    let next = PageView { after: rows[n].field("id"@).text(), ..page };
    let at = cursor(store.records, id, kind, next)->Ok_0;
    lemma_page_reads(rows_from(store.records, id, kind, next, at), page.size() as nat);
}

/// A list is refused where the session is not public; where less than 1 or more than
/// 100 records are asked for, in an order that is neither ascending nor descending,
/// or turns of a turn; or where the record to go on behind is not in the list. It is
/// refused nowhere else.
pub proof fn law_lists_are_refused_only_for_a_reason(
    store: StoreView,
    id: Seq<char>,
    kind: RecordKind,
    page: PageView,
)
    requires
        store.well_formed(),
    ensures
        ({
            let sound = {
                &&& 1 <= asked_for(page) <= 100
                &&& page.order is None || page.order == Some("asc"@) || page.order == Some(
                    "desc"@,
                )
                &&& kind is Turn ==> page.turn_id is None
            };
            let found = page.after is None || exists|i: int|
                0 <= i < store.records.len() && belongs(id, kind, page.turn_id)(
                    #[trigger] store.records[i],
                ) && store.records[i].id == page.after->0;
            match page_of(store, id, kind, page) {
                Ok(_) => store.public_session(id) is Some && sound && found,
                Err(error) => if store.public_session(id) is None {
                    error.status == 404 && error.message == "session not found"@
                } else if !sound {
                    error.status == 400 && error.message == "invalid pagination parameters"@
                } else {
                    !found && error.status == 400 && error.message == "invalid after cursor"@
                },
            }
        }),
{
    if store.public_session(id) is Some {
        lemma_public_session_found(store, id);
        assert(store.session_row(id) is Some);
    }
    match page.after {
        Some(after) => {
            let key = record_key(id, kind, after);
            lemma_position::<Record>(store.records, key);
            match position::<Record>(store.records, key) {
                Some(i) => {
                    let row = store.records[i];
                    lemma_kinds_differ();
                    lemma_triple_key(
                        row.session_id,
                        kind_word(row.kind),
                        row.id,
                        id,
                        kind_word(kind),
                        after,
                    );
                    assert forall|j: int|
                        0 <= j < store.records.len() && belongs(id, kind, page.turn_id)(
                            #[trigger] store.records[j],
                        ) && store.records[j].id == after implies j == i by {
                        assert(Record::key(store.records[j]) == key);
                    }
                    if page.turn_id is Some ==> row.turn_id == page.turn_id->0 {
                        assert(belongs(id, kind, page.turn_id)(store.records[i]));
                    }
                },
                None => {
                    assert forall|j: int|
                        0 <= j < store.records.len() && belongs(id, kind, page.turn_id)(
                            #[trigger] store.records[j],
                        ) implies store.records[j].id != after by {
                        assert(Record::key(store.records[j]) != key);
                    }
                },
            }
        },
        None => {},
    }
}

/// One turn is read as it is recorded; one that is not recorded is not found.
pub proof fn law_turn_is_read_as_recorded(store: StoreView, id: Seq<char>, turn_id: Seq<char>)
    ensures
        match turn_of(store, id, turn_id) {
            Ok(turn) => exists|i: int|
                #![trigger store.records[i]]
                {
                    &&& 0 <= i < store.records.len()
                    &&& store.records[i].session_id == id
                    &&& store.records[i].kind is Turn
                    &&& store.records[i].id == turn_id
                    &&& store.records[i].data == turn
                },
            Err(error) => {
                &&& error.status == 404
                &&& error.message == "turn not found"@
                &&& forall|i: int|
                    0 <= i < store.records.len() ==> !((#[trigger] store.records[i]).session_id
                        == id && store.records[i].kind is Turn && store.records[i].id == turn_id)
            },
        },
{
    let key = record_key(id, RecordKind::Turn, turn_id);
    lemma_position::<Record>(store.records, key);
    if store.record(id, RecordKind::Turn, turn_id) is Some {
        lemma_record_found(store, id, RecordKind::Turn, turn_id);
    } else {
        assert forall|i: int| 0 <= i < store.records.len() implies !((
        #[trigger] store.records[i]).session_id == id && store.records[i].kind is Turn
            && store.records[i].id == turn_id) by {
            assert(Record::key(store.records[i]) != key);
        }
    }
}

} // verus!
