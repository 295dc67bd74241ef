//! Lists of public records, page by page.
use crate::error::bad_request;
use crate::error::invalid;
use crate::error::missing;
use crate::error::ApiError;
use crate::error::ApiErrorView;
use crate::json::object;
use crate::json::Json;
use crate::json::JsonView;
use crate::model::duplicate_option;
use crate::model::option_view;
use crate::model::outcome;
use crate::model::views;
use crate::model::Duplicate;
use crate::records::session;
use crate::store::record_key;
use crate::store::Record;
use crate::store::RecordKind;
use crate::store::RecordView;
use crate::store::Store;
use crate::store::StoreView;
use crate::table::distinct_keys;
use crate::table::find;
use crate::table::lemma_found;
use crate::table::lemma_position;
use crate::table::position;
use crate::table::texts;
use crate::table::Row;
use crate::text::same;
use vstd::prelude::*;

verus! {

/// Which records a client asks for.
pub struct Page {
    /// The record after which the page starts.
    pub after: Option<String>,
    /// The most records that the page may hold.
    pub limit: Option<u32>,
    /// `asc` for the oldest first, `desc` for the newest first.
    pub order: Option<String>,
    /// The turn that the records belong to.
    pub turn_id: Option<String>,
}

/// What a [`Page`] stands for.
pub struct PageView {
    pub after: Option<Seq<char>>,
    pub limit: Option<u32>,
    pub order: Option<Seq<char>>,
    pub turn_id: Option<Seq<char>>,
}

impl View for Page {
    type V = PageView;

    open spec fn view(&self) -> PageView {
        PageView {
            after: option_view(self.after),
            limit: self.limit,
            order: option_view(self.order),
            turn_id: option_view(self.turn_id),
        }
    }
}

impl Duplicate for Page {
    fn duplicate(&self) -> (copy: Self) {
        Page {
            after: duplicate_option(&self.after),
            limit: self.limit,
            order: duplicate_option(&self.order),
            turn_id: duplicate_option(&self.turn_id),
        }
    }
}

impl PageView {
    /// The most records that the page may hold.
    pub open spec fn size(self) -> u32 {
        match self.limit {
            Some(limit) => limit,
            None => 20,
        }
    }

    /// Whether the oldest records come first.
    pub open spec fn ascending(self) -> bool {
        self.order == Some("asc"@)
    }

    /// Whether the page may be asked for, of records of a kind.
    pub open spec fn acceptable(self, kind: RecordKind) -> bool {
        &&& 1 <= self.size() <= 100
        &&& self.order is None || self.order == Some("asc"@) || self.order == Some("desc"@)
        &&& kind is Turn ==> self.turn_id is None
    }
}

/// Whether a record is asked for.
pub open spec fn wanted(
    row: RecordView,
    session_id: Seq<char>,
    kind: RecordKind,
    turn_id: Option<Seq<char>>,
) -> bool {
    &&& row.session_id == session_id
    &&& row.kind == kind
    &&& turn_id is Some ==> row.turn_id == turn_id->0
}

/// The records that are asked for, in the order in which they were first saved.
pub open spec fn matching(
    records: Seq<RecordView>,
    session_id: Seq<char>,
    kind: RecordKind,
    turn_id: Option<Seq<char>>,
) -> Seq<JsonView>
    decreases records.len(),
{
    if records.len() == 0 {
        Seq::empty()
    } else {
        let front = matching(records.drop_last(), session_id, kind, turn_id);
        if wanted(records.last(), session_id, kind, turn_id) {
            front.push(records.last().data)
        } else {
            front
        }
    }
}

/// Where the record stands after which a page starts: nowhere in particular
/// where none is named, and an error where the one that is named is not asked
/// for.
pub open spec fn cursor(
    records: Seq<RecordView>,
    session_id: Seq<char>,
    kind: RecordKind,
    page: PageView,
) -> Result<Option<int>, ApiErrorView> {
    match page.after {
        None => Ok(None),
        Some(after) => match position::<Record>(records, record_key(session_id, kind, after)) {
            Some(i) if page.turn_id is Some ==> records[i].turn_id == page.turn_id->0 => Ok(
                Some(i),
            ),
            _ => Err(bad_request("invalid after cursor"@)),
        },
    }
}

/// All the records from the start of a page on.
pub open spec fn rows_from(
    records: Seq<RecordView>,
    session_id: Seq<char>,
    kind: RecordKind,
    page: PageView,
    start: Option<int>,
) -> Seq<JsonView> {
    if page.ascending() {
        let rest = match start {
            Some(i) => records.skip(i + 1),
            None => records,
        };
        matching(rest, session_id, kind, page.turn_id)
    } else {
        let rest = match start {
            Some(i) => records.take(i),
            None => records,
        };
        matching(rest, session_id, kind, page.turn_id).reverse()
    }
}

/// The array of `rows`.
pub open spec fn listed(rows: Seq<JsonView>) -> JsonView
    decreases rows.len(),
{
    if rows.len() == 0 {
        crate::json::list()
    } else {
        listed(rows.drop_last()).item(rows.last())
    }
}

/// The page of the first `size` of `rows`.
pub open spec fn page_document(rows: Seq<JsonView>, size: nat) -> JsonView {
    let data = if rows.len() > size {
        rows.take(size as int)
    } else {
        rows
    };
    let first_id = if data.len() == 0 {
        JsonView::Null
    } else {
        data.first().field("id"@)
    };
    let last_id = if data.len() == 0 {
        JsonView::Null
    } else {
        data.last().field("id"@)
    };
    object().entry("object"@, JsonView::Text("list"@)).entry("first_id"@, first_id).entry(
        "last_id"@,
        last_id,
    ).entry("data"@, listed(data)).entry("has_more"@, JsonView::Bool(rows.len() > size))
}

/// A page of a session's records.
pub open spec fn page_of(store: StoreView, id: Seq<char>, kind: RecordKind, page: PageView) -> Result<
    JsonView,
    ApiErrorView,
> {
    match store.public_view(id) {
        Err(e) => Err(e),
        Ok(_) => if !page.acceptable(kind) {
            Err(bad_request("invalid pagination parameters"@))
        } else {
            match cursor(store.records, id, kind, page) {
                Err(e) => Err(e),
                Ok(start) => Ok(
                    page_document(
                        rows_from(store.records, id, kind, page, start),
                        page.size() as nat,
                    ),
                ),
            }
        },
    }
}

/// The saved record of a turn.
pub open spec fn turn_of(store: StoreView, id: Seq<char>, turn_id: Seq<char>) -> Result<
    JsonView,
    ApiErrorView,
> {
    match store.record(id, RecordKind::Turn, turn_id) {
        None => Err(missing("turn not found"@)),
        Some(row) => Ok(row.data),
    }
}

/// The records that are asked for, from `start` up to but not at `end`.
fn collect_matching(
    records: &Vec<Record>,
    start: usize,
    end: usize,
    session_id: &str,
    kind: RecordKind,
    turn_id: &Option<String>,
) -> (rows: Vec<Json>)
    requires
        start <= end <= records@.len(),
    ensures
        views(rows@) == matching(
            views(records@).subrange(start as int, end as int),
            session_id@,
            kind,
            option_view(*turn_id),
        ),
{
    let ghost model = views(records@).subrange(start as int, end as int);
    let mut rows: Vec<Json> = Vec::new();
    let mut i: usize = start;
    assert(model.take(0) =~= Seq::<RecordView>::empty());
    assert(views(rows@) =~= Seq::<JsonView>::empty());
    while i < end
        invariant
            start <= i <= end <= records@.len(),
            model == views(records@).subrange(start as int, end as int),
            views(rows@) == matching(
                model.take(i - start),
                session_id@,
                kind,
                option_view(*turn_id),
            ),
        decreases end - i,
    {
        let row = &records[i];
        proof {
            assert(model.take(i - start + 1).drop_last() =~= model.take(i - start));
            assert(model.take(i - start + 1).last() == row@);
        }
        let of_turn = match turn_id {
            Some(turn_id) => same(row.turn_id.as_str(), turn_id.as_str()),
            None => true,
        };
        if of_turn && row.kind == kind && same(row.session_id.as_str(), session_id) {
            let ghost before = views(rows@);
            rows.push(row.data.copy());
            assert(views(rows@) =~= before.push(row.data@));
        }
        i += 1;
    }
    assert(model.take(i - start) =~= model);
    rows
}

/// The rows, last first.
fn reversed(rows: Vec<Json>) -> (result: Vec<Json>)
    ensures
        views(result@) == views(rows@).reverse(),
{
    let ghost model = rows@;
    let mut rows = rows;
    let mut result: Vec<Json> = Vec::new();
    while rows.len() > 0
        invariant
            rows@.len() + result@.len() == model.len(),
            rows@ =~= model.take(rows@.len() as int),
            forall|i: int|
                0 <= i < result@.len() ==> #[trigger] result@[i] == model[model.len() - 1 - i],
        decreases rows@.len(),
    {
        let row = rows.pop().unwrap();
        result.push(row);
    }
    assert(views(result@) =~= views(model).reverse());
    result
}

/// Where the record stands after which a page starts.
fn find_cursor(store: &Store, id: &str, kind: RecordKind, page: &Page) -> (start: Result<
    Option<usize>,
    ApiError,
>)
    ensures
        match start {
            Ok(Some(i)) => i < store.records@.len() && cursor(store@.records, id@, kind, page@)
                == Ok::<Option<int>, ApiErrorView>(Some(i as int)),
            Ok(None) => cursor(store@.records, id@, kind, page@)
                == Ok::<Option<int>, ApiErrorView>(None),
            Err(e) => cursor(store@.records, id@, kind, page@)
                == Err::<Option<int>, ApiErrorView>(e@),
        },
{
    match &page.after {
        None => Ok(None),
        Some(after) => {
            let key = vec![id, kind.word(), after.as_str()];
            assert(texts(key@) =~= record_key(id@, kind, after@));
            match find(&store.records, &key) {
                Some(i) => {
                    let row = &store.records[i];
                    assert(store@.records[i as int] == row@);
                    let of_turn = match &page.turn_id {
                        Some(turn_id) => same(row.turn_id.as_str(), turn_id.as_str()),
                        None => true,
                    };
                    if of_turn {
                        Ok(Some(i))
                    } else {
                        Err(invalid("invalid after cursor"))
                    }
                },
                None => Err(invalid("invalid after cursor")),
            }
        },
    }
}

/// The page of the first `size` of `rows`.
fn document_of_page(rows: Vec<Json>, size: usize) -> (json: Json)
    ensures
        json@ == page_document(views(rows@), size as nat),
{
    let has_more = rows.len() > size;
    let ghost model = views(rows@);
    let ghost data = if model.len() > size {
        model.take(size as int)
    } else {
        model
    };
    let count: usize = if has_more {
        size
    } else {
        rows.len()
    };
    assert(model.take(count as int) =~= data);
    let first_id = if count == 0 {
        Json::Null
    } else {
        assert(data.first() == rows@[0]@);
        rows[0].field("id").copy()
    };
    let last_id = if count == 0 {
        Json::Null
    } else {
        assert(data.last() == rows@[count - 1]@);
        rows[count - 1].field("id").copy()
    };
    let mut items = Json::list();
    let mut i: usize = 0;
    assert(model.take(0) =~= Seq::<JsonView>::empty());
    while i < count
        invariant
            i <= count <= rows@.len(),
            model == views(rows@),
            items@ == listed(model.take(i as int)),
        decreases count - i,
    {
        proof {
            assert(model.take(i + 1).drop_last() =~= model.take(i as int));
            assert(model.take(i + 1).last() == rows@[i as int]@);
        }
        items = items.item(rows[i].copy());
        i += 1;
    }
    Json::object()
        .entry("object", Json::string("list"))
        .entry("first_id", first_id)
        .entry("last_id", last_id)
        .entry("data", items)
        .entry("has_more", Json::Bool(has_more))
}

/// A page of a session's records.
pub fn list(store: &Store, id: &str, kind: RecordKind, page: Page) -> (result: Result<
    Json,
    ApiError,
>)
    ensures
        outcome(result) == page_of(store@, id@, kind, page@),
{
    match session(store, id) {
        Err(e) => {
            return Err(e);
        },
        Ok(_) => {},
    }
    let size: u32 = match page.limit {
        Some(limit) => limit,
        None => 20,
    };
    let (known_order, ascending) = match &page.order {
        None => (true, false),
        Some(order) => if same(order.as_str(), "asc") {
            (true, true)
        } else {
            (same(order.as_str(), "desc"), false)
        },
    };
    if size < 1 || size > 100 || !known_order || (kind == RecordKind::Turn
        && page.turn_id.is_some()) {
        return Err(invalid("invalid pagination parameters"));
    }
    let start = match find_cursor(store, id, kind, &page) {
        Err(e) => {
            return Err(e);
        },
        Ok(start) => start,
    };
    let total: usize = store.records.len();
    let ghost model = store@.records;
    let rows = if ascending {
        let first: usize = match start {
            Some(i) => i + 1,
            None => 0,
        };
        proof {
            match start {
                Some(i) => {
                    assert(model.subrange(first as int, total as int) =~= model.skip(i + 1));
                },
                None => {
                    assert(model.subrange(first as int, total as int) =~= model);
                },
            }
        }
        collect_matching(&store.records, first, total, id, kind, &page.turn_id)
    } else {
        let last: usize = match start {
            Some(i) => i,
            None => total,
        };
        proof {
            match start {
                Some(i) => {
                    assert(model.subrange(0, last as int) =~= model.take(i as int));
                },
                None => {
                    assert(model.subrange(0, last as int) =~= model);
                },
            }
        }
        reversed(collect_matching(&store.records, 0, last, id, kind, &page.turn_id))
    };
    Ok(document_of_page(rows, size as usize))
}

/// A page of a session's items.
pub fn items(store: &Store, id: &str, page: Page) -> (result: Result<Json, ApiError>)
    ensures
        outcome(result) == page_of(store@, id@, RecordKind::Item, page@),
{
    list(store, id, RecordKind::Item, page)
}

/// A page of a session's turns.
pub fn turns(store: &Store, id: &str, page: Page) -> (result: Result<Json, ApiError>)
    ensures
        outcome(result) == page_of(store@, id@, RecordKind::Turn, page@),
{
    list(store, id, RecordKind::Turn, page)
}

/// One saved turn of a session.
pub fn turn(store: &Store, id: &str, turn_id: &str) -> (result: Result<Json, ApiError>)
    ensures
        outcome(result) == turn_of(store@, id@, turn_id@),
{
    match store.record(id, RecordKind::Turn, turn_id) {
        None => Err(ApiError::new(404, "turn not found")),
        Some(row) => Ok(row.data),
    }
}

/// Every record carries its own ID.
pub open spec fn self_named(records: Seq<RecordView>) -> bool {
    forall|i: int|
        0 <= i < records.len() ==> (#[trigger] records[i]).data.field("id"@) == JsonView::Text(
            records[i].id,
        )
}

/// One more record adds to those that are asked for only at their end.
proof fn lemma_matching_push(
    records: Seq<RecordView>,
    row: RecordView,
    session_id: Seq<char>,
    kind: RecordKind,
    turn_id: Option<Seq<char>>,
)
    ensures
        matching(records.push(row), session_id, kind, turn_id) == if wanted(
            row,
            session_id,
            kind,
            turn_id,
        ) {
            matching(records, session_id, kind, turn_id).push(row.data)
        } else {
            matching(records, session_id, kind, turn_id)
        },
{
    assert(records.push(row).drop_last() =~= records);
}

/// The record that is asked for as number `k` divides the records into those
/// that are asked for before it and those that are asked for after it.
proof fn lemma_matching_nth(
    records: Seq<RecordView>,
    session_id: Seq<char>,
    kind: RecordKind,
    turn_id: Option<Seq<char>>,
    k: int,
) -> (at: int)
    requires
        0 <= k < matching(records, session_id, kind, turn_id).len(),
    ensures
        0 <= at < records.len(),
        wanted(records[at], session_id, kind, turn_id),
        records[at].data == matching(records, session_id, kind, turn_id)[k],
        matching(records.take(at), session_id, kind, turn_id) == matching(
            records,
            session_id,
            kind,
            turn_id,
        ).take(k),
        matching(records.skip(at + 1), session_id, kind, turn_id) == matching(
            records,
            session_id,
            kind,
            turn_id,
        ).skip(k + 1),
    decreases records.len(),
{
    let front = records.drop_last();
    let all = matching(records, session_id, kind, turn_id);
    let before = matching(front, session_id, kind, turn_id);
    if k < before.len() {
        let at = lemma_matching_nth(front, session_id, kind, turn_id, k);
        assert(records.take(at) =~= front.take(at));
        assert(all.take(k) =~= before.take(k));
        assert(records.skip(at + 1) =~= front.skip(at + 1).push(records.last()));
        lemma_matching_push(
            front.skip(at + 1),
            records.last(),
            session_id,
            kind,
            turn_id,
        );
        assert(all.skip(k + 1) =~= if wanted(records.last(), session_id, kind, turn_id) {
            before.skip(k + 1).push(records.last().data)
        } else {
            before.skip(k + 1)
        });
        at
    } else {
        let at = records.len() - 1;
        assert(records.take(at) =~= front);
        assert(all.take(k) =~= before);
        assert(records.skip(at + 1) =~= Seq::<RecordView>::empty());
        assert(all.skip(k + 1) =~= Seq::<JsonView>::empty());
        at
    }
}

/// The page that is asked for after the last record of a page continues where
/// that page ends: nothing is left out between them and nothing comes twice.
pub proof fn law_pages_continue(
    records: Seq<RecordView>,
    session_id: Seq<char>,
    kind: RecordKind,
    page: PageView,
    start: Option<int>,
    n: int,
)
    requires
        distinct_keys::<Record>(records),
        self_named(records),
        cursor(records, session_id, kind, page) == Ok::<Option<int>, ApiErrorView>(start),
        0 < n <= rows_from(records, session_id, kind, page, start).len(),
    ensures
        ({
            let rows = rows_from(records, session_id, kind, page, start);
            let next = PageView { after: rows[n - 1].field("id"@).text(), ..page };
            match cursor(records, session_id, kind, next) {
                Ok(at) => next.after is Some && rows_from(records, session_id, kind, next, at)
                    == rows.skip(n),
                Err(_) => false,
            }
        }),
{
    let rows = rows_from(records, session_id, kind, page, start);
    let next = PageView { after: rows[n - 1].field("id"@).text(), ..page };
    match start {
        Some(i) => {
            lemma_position::<Record>(records, record_key(session_id, kind, page.after->0));
        },
        None => {},
    }
    let (rest, offset) = match start {
        Some(i) => if page.ascending() {
            (records.skip(i + 1), i + 1)
        } else {
            (records.take(i), 0)
        },
        None => (records, 0),
    };
    let all = matching(rest, session_id, kind, page.turn_id);
    let k = if page.ascending() {
        n - 1
    } else {
        all.len() - n
    };
    let found = lemma_matching_nth(rest, session_id, kind, page.turn_id, k);
    let at = offset + found;
    assert(rest[found] == records[at]);
    assert(all[k] == rows[n - 1]);
    let key = record_key(session_id, kind, records[at].id);
    assert forall|j: int| 0 <= j < at implies Record::key(#[trigger] records[j]) != key by {
        assert(Record::key(records[j]) != Record::key(records[at]));
    }
    lemma_found::<Record>(records, key, at);
    if page.ascending() {
        assert(records.skip(at + 1) =~= rest.skip(found + 1));
        assert(all.skip(k + 1) =~= rows.skip(n));
    } else {
        assert(records.take(at) =~= rest.take(found));
        assert(all.take(k).reverse() =~= rows.skip(n));
    }
}

} // verus!
