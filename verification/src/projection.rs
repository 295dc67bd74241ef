//! How the backend's turns and items are shown to clients.
use crate::json::list;
use crate::json::object;
use crate::json::Json;
use crate::json::JsonView;
use crate::model::option_view;
use crate::records::number;
use crate::text::joined;
use crate::text::same;
use vstd::prelude::*;

verus! {

/// The public status of a turn of the backend.
pub open spec fn turn_status(source: JsonView) -> Seq<char> {
    let status = source.field("status"@);
    if status == JsonView::Text("completed"@) {
        "completed"@
    } else if status == JsonView::Text("interrupted"@) {
        "cancelled"@
    } else if status == JsonView::Text("failed"@) {
        "failed"@
    } else {
        "in_progress"@
    }
}

/// What is shown of why the model failed a turn.
pub open spec fn turn_failure(source: JsonView) -> JsonView {
    object().entry("code"@, JsonView::Text("internal_error"@)).entry(
        "message"@,
        JsonView::Text(
            match source.field("error"@).field("message"@).text() {
                Some(message) => message,
                None => "turn failed"@,
            },
        ),
    )
}

/// The public form of a turn.
pub open spec fn public_turn(
    session_id: Seq<char>,
    agent_id: JsonView,
    turn_id: Seq<char>,
    source: JsonView,
    now: u64,
) -> JsonView {
    let status = turn_status(source);
    let created_at = match source.field("startedAt"@).unsigned() {
        Some(started) => started,
        None => now,
    };
    object().entry("id"@, JsonView::Text(turn_id)).entry(
        "object"@,
        JsonView::Text("agent.session.turn"@),
    ).entry("session_id"@, JsonView::Text(session_id)).entry("agent_id"@, agent_id).entry(
        "created_at"@,
        number(created_at),
    ).entry("started_at"@, source.field("startedAt"@)).entry(
        "completed_at"@,
        source.field("completedAt"@),
    ).entry("status"@, JsonView::Text(status)).entry("usage"@, JsonView::Null).entry(
        "subagent_id"@,
        JsonView::Null,
    ).entry(
        "error"@,
        if status == "failed"@ {
            turn_failure(source)
        } else {
            JsonView::Null
        },
    )
}

/// An event about a turn.
pub open spec fn turn_event(
    kind: Seq<char>,
    session_id: Seq<char>,
    turn_id: Seq<char>,
    turn: JsonView,
) -> JsonView {
    object().entry("type"@, JsonView::Text("agent.session.turn."@ + kind)).entry(
        "session_id"@,
        JsonView::Text(session_id),
    ).entry("turn_id"@, JsonView::Text(turn_id)).entry("turn"@, turn)
}

/// The texts among the parts of a user's message.
pub open spec fn input_texts(content: Seq<JsonView>) -> JsonView
    decreases content.len(),
{
    if content.len() == 0 {
        list()
    } else {
        let front = input_texts(content.drop_last());
        match content.last().field("text"@).text() {
            Some(text) => front.item(
                object().entry("type"@, JsonView::Text("input_text"@)).entry(
                    "text"@,
                    JsonView::Text(text),
                ),
            ),
            None => front,
        }
    }
}

/// The parts of a summary of the model's reasoning.
pub open spec fn summary_texts(summary: Seq<JsonView>) -> JsonView
    decreases summary.len(),
{
    if summary.len() == 0 {
        list()
    } else {
        summary_texts(summary.drop_last()).item(
            object().entry("type"@, JsonView::Text("summary_text"@)).entry(
                "text"@,
                summary.last(),
            ),
        )
    }
}

/// The texts among the parts of a function's output, on lines of their own;
/// nothing where no part is a text.
pub open spec fn output_texts(content: Seq<JsonView>) -> Option<Seq<char>>
    decreases content.len(),
{
    if content.len() == 0 {
        None
    } else {
        let front = output_texts(content.drop_last());
        match content.last().field("text"@).text() {
            Some(text) => match front {
                Some(lines) => Some(lines + "\n"@ + text),
                None => Some(text),
            },
            None => front,
        }
    }
}

/// Whether an item of the backend is a call of an application's function.
pub open spec fn is_function_call(item: JsonView) -> bool {
    item.field("type"@) == JsonView::Text("dynamicToolCall"@)
}

/// What is shown of an item of the backend, but for its ID, its turn and its
/// status. Items of other kinds are not shown.
pub open spec fn item_content(item: JsonView) -> Option<JsonView> {
    let kind = item.field("type"@);
    if kind == JsonView::Text("userMessage"@) {
        Some(
            object().entry("type"@, JsonView::Text("message"@)).entry(
                "role"@,
                JsonView::Text("user"@),
            ).entry("phase"@, JsonView::Null).entry(
                "content"@,
                input_texts(item.field("content"@).elements()),
            ),
        )
    } else if kind == JsonView::Text("agentMessage"@) {
        Some(
            object().entry("type"@, JsonView::Text("message"@)).entry(
                "role"@,
                JsonView::Text("assistant"@),
            ).entry("phase"@, item.field("phase"@)).entry(
                "content"@,
                list().item(
                    object().entry("type"@, JsonView::Text("output_text"@)).entry(
                        "text"@,
                        item.field("text"@),
                    ),
                ),
            ),
        )
    } else if kind == JsonView::Text("reasoning"@) {
        Some(
            object().entry("type"@, JsonView::Text("reasoning"@)).entry(
                "summary"@,
                summary_texts(item.field("summary"@).elements()),
            ),
        )
    } else if is_function_call(item) {
        Some(
            object().entry("type"@, JsonView::Text("function_call"@)).entry(
                "call_id"@,
                item.field("id"@),
            ).entry("name"@, item.field("tool"@)).entry(
                "arguments"@,
                item.field("arguments"@),
            ),
        )
    } else {
        None
    }
}

/// The public status of an item. What a user said is complete at once; a
/// function call that failed says so when it is done.
pub open spec fn item_status(item: JsonView, done: bool) -> Seq<char> {
    if item.field("type"@) == JsonView::Text("userMessage"@) {
        "completed"@
    } else if done && is_function_call(item) && item.field("status"@) == JsonView::Text(
        "failed"@,
    ) {
        "failed"@
    } else if done {
        "completed"@
    } else {
        "in_progress"@
    }
}

/// The public ID of an item.
pub open spec fn public_item_id(turn_id: Seq<char>, item_id: Seq<char>) -> Seq<char> {
    "item_"@ + turn_id + "_"@ + item_id
}

/// The public form of an item.
pub open spec fn public_item(
    turn_id: Seq<char>,
    item_id: Seq<char>,
    item: JsonView,
    done: bool,
) -> Option<JsonView> {
    match item_content(item) {
        None => None,
        Some(content) => Some(
            content.entry("id"@, JsonView::Text(public_item_id(turn_id, item_id))).entry(
                "turn_id"@,
                JsonView::Text(turn_id),
            ).entry("status"@, JsonView::Text(item_status(item, done))),
        ),
    }
}

/// Whether a function call was answered with a failure.
pub open spec fn function_failed(item: JsonView) -> bool {
    item.field("success"@) == JsonView::Bool(false) || item.field("status"@) == JsonView::Text(
        "failed"@,
    )
}

/// The public form of the answer to a function call.
pub open spec fn public_output(turn_id: Seq<char>, item_id: Seq<char>, item: JsonView) -> JsonView {
    let failed = function_failed(item);
    let output = JsonView::Text(
        match output_texts(item.field("contentItems"@).elements()) {
            Some(text) => text,
            None => ""@,
        },
    );
    object().entry(
        "id"@,
        JsonView::Text("output_"@ + public_item_id(turn_id, item_id)),
    ).entry("type"@, JsonView::Text("function_call_output"@)).entry(
        "turn_id"@,
        JsonView::Text(turn_id),
    ).entry("call_id"@, item.field("id"@)).entry(
        "status"@,
        JsonView::Text(
            if failed {
                "failed"@
            } else {
                "completed"@
            },
        ),
    ).entry(
        "output"@,
        if failed {
            JsonView::Null
        } else {
            output
        },
    ).entry(
        "error"@,
        if failed {
            output
        } else {
            JsonView::Null
        },
    )
}

/// The public status of a turn of the backend.
pub fn status_of_turn(source: &Json) -> (status: &'static str)
    ensures
        status@ == turn_status(source@),
{
    let status = source.field("status");
    if status.is_text("completed") {
        "completed"
    } else if status.is_text("interrupted") {
        "cancelled"
    } else if status.is_text("failed") {
        "failed"
    } else {
        "in_progress"
    }
}

/// What is shown of why the model failed a turn.
pub fn failure_of_turn(source: &Json) -> (json: Json)
    ensures
        json@ == turn_failure(source@),
{
    let message = match source.field("error").field("message").as_text() {
        Some(message) => message.as_str(),
        None => "turn failed",
    };
    Json::object().entry("code", Json::string("internal_error")).entry(
        "message",
        Json::string(message),
    )
}

/// The public form of a turn.
pub fn turn_document(
    session_id: &str,
    agent_id: &Json,
    turn_id: &str,
    source: &Json,
    now: u64,
) -> (json: Json)
    ensures
        json@ == public_turn(session_id@, agent_id@, turn_id@, source@, now),
{
    let status = status_of_turn(source);
    let created_at: u64 = match source.field("startedAt").as_unsigned() {
        Some(started) => started,
        None => now,
    };
    let error = if same(status, "failed") {
        failure_of_turn(source)
    } else {
        Json::Null
    };
    Json::object()
        .entry("id", Json::string(turn_id))
        .entry("object", Json::string("agent.session.turn"))
        .entry("session_id", Json::string(session_id))
        .entry("agent_id", agent_id.copy())
        .entry("created_at", Json::unsigned(created_at))
        .entry("started_at", source.field("startedAt").copy())
        .entry("completed_at", source.field("completedAt").copy())
        .entry("status", Json::string(status))
        .entry("usage", Json::Null)
        .entry("subagent_id", Json::Null)
        .entry("error", error)
}

/// An event about a turn.
pub fn event_of_turn(kind: &str, session_id: &str, turn_id: &str, turn: &Json) -> (json: Json)
    ensures
        json@ == turn_event(kind@, session_id@, turn_id@, turn@),
{
    let kind = joined("agent.session.turn.", kind);
    Json::object()
        .entry("type", Json::string(kind.as_str()))
        .entry("session_id", Json::string(session_id))
        .entry("turn_id", Json::string(turn_id))
        .entry("turn", turn.copy())
}

/// The texts among the parts of a user's message.
fn collect_input_texts(content: &Json) -> (json: Json)
    ensures
        json@ == input_texts(content@.elements()),
{
    let mut json = Json::list();
    match content {
        Json::Array(items) => {
            let ghost model = content@.elements();
            let mut i: usize = 0;
            assert(model.take(0) =~= Seq::<JsonView>::empty());
            while i < items.len()
                invariant
                    i <= items@.len(),
                    *content == Json::Array(*items),
                    model == content@.elements(),
                    json@ == input_texts(model.take(i as int)),
                decreases items@.len() - i,
            {
                proof {
                    assert(model.take(i + 1).drop_last() =~= model.take(i as int));
                    assert(model.take(i + 1).last() == items@[i as int]@);
                }
                match items[i].field("text").as_text() {
                    Some(text) => {
                        json =
                        json.item(
                            Json::object().entry("type", Json::string("input_text")).entry(
                                "text",
                                Json::string(text.as_str()),
                            ),
                        );
                    },
                    None => {},
                }
                i += 1;
            }
            assert(model.take(i as int) =~= model);
        },
        _ => {},
    }
    json
}

/// The parts of a summary of the model's reasoning.
fn collect_summary_texts(summary: &Json) -> (json: Json)
    ensures
        json@ == summary_texts(summary@.elements()),
{
    let mut json = Json::list();
    match summary {
        Json::Array(items) => {
            let ghost model = summary@.elements();
            let mut i: usize = 0;
            assert(model.take(0) =~= Seq::<JsonView>::empty());
            while i < items.len()
                invariant
                    i <= items@.len(),
                    *summary == Json::Array(*items),
                    model == summary@.elements(),
                    json@ == summary_texts(model.take(i as int)),
                decreases items@.len() - i,
            {
                proof {
                    assert(model.take(i + 1).drop_last() =~= model.take(i as int));
                    assert(model.take(i + 1).last() == items@[i as int]@);
                }
                json =
                json.item(
                    Json::object().entry("type", Json::string("summary_text")).entry(
                        "text",
                        items[i].copy(),
                    ),
                );
                i += 1;
            }
            assert(model.take(i as int) =~= model);
        },
        _ => {},
    }
    json
}

/// The texts among the parts of a function's output.
fn collect_output_texts(content: &Json) -> (text: String)
    ensures
        text@ == match output_texts(content@.elements()) {
            Some(text) => text,
            None => ""@,
        },
{
    let mut lines: Option<String> = None;
    match content {
        Json::Array(items) => {
            let ghost model = content@.elements();
            let mut i: usize = 0;
            assert(model.take(0) =~= Seq::<JsonView>::empty());
            while i < items.len()
                invariant
                    i <= items@.len(),
                    *content == Json::Array(*items),
                    model == content@.elements(),
                    option_view(lines) == output_texts(model.take(i as int)),
                decreases items@.len() - i,
            {
                proof {
                    assert(model.take(i + 1).drop_last() =~= model.take(i as int));
                    assert(model.take(i + 1).last() == items@[i as int]@);
                }
                match items[i].field("text").as_text() {
                    Some(text) => {
                        lines =
                        match lines {
                            Some(before) => Some(
                                joined(joined(before.as_str(), "\n").as_str(), text.as_str()),
                            ),
                            None => Some(text.clone()),
                        };
                    },
                    None => {},
                }
                i += 1;
            }
            assert(model.take(i as int) =~= model);
        },
        _ => {},
    }
    match lines {
        Some(text) => text,
        None => "".to_owned(),
    }
}

/// What is shown of an item of the backend, but for its ID, its turn and its
/// status.
fn content_of_item(item: &Json) -> (content: Option<Json>)
    ensures
        option_view(content) == item_content(item@),
{
    let kind = item.field("type");
    if kind.is_text("userMessage") {
        Some(
            Json::object()
                .entry("type", Json::string("message"))
                .entry("role", Json::string("user"))
                .entry("phase", Json::Null)
                .entry("content", collect_input_texts(item.field("content"))),
        )
    } else if kind.is_text("agentMessage") {
        Some(
            Json::object()
                .entry("type", Json::string("message"))
                .entry("role", Json::string("assistant"))
                .entry("phase", item.field("phase").copy())
                .entry(
                    "content",
                    Json::list().item(
                        Json::object().entry("type", Json::string("output_text")).entry(
                            "text",
                            item.field("text").copy(),
                        ),
                    ),
                ),
        )
    } else if kind.is_text("reasoning") {
        Some(
            Json::object().entry("type", Json::string("reasoning")).entry(
                "summary",
                collect_summary_texts(item.field("summary")),
            ),
        )
    } else if kind.is_text("dynamicToolCall") {
        Some(
            Json::object()
                .entry("type", Json::string("function_call"))
                .entry("call_id", item.field("id").copy())
                .entry("name", item.field("tool").copy())
                .entry("arguments", item.field("arguments").copy()),
        )
    } else {
        None
    }
}

/// The public status of an item.
fn status_of_item(item: &Json, done: bool) -> (status: &'static str)
    ensures
        status@ == item_status(item@, done),
{
    if item.field("type").is_text("userMessage") {
        "completed"
    } else if done && item.field("type").is_text("dynamicToolCall") && item.field("status").is_text(
        "failed",
    ) {
        "failed"
    } else if done {
        "completed"
    } else {
        "in_progress"
    }
}

/// The public ID of an item.
fn id_of_item(turn_id: &str, item_id: &str) -> (id: String)
    ensures
        id@ == public_item_id(turn_id@, item_id@),
{
    let turn = joined("item_", turn_id);
    let prefix = joined(turn.as_str(), "_");
    joined(prefix.as_str(), item_id)
}

/// The public form of an item, if it is shown.
pub fn item_document(turn_id: &str, item_id: &str, item: &Json, done: bool) -> (json: Option<Json>)
    ensures
        option_view(json) == public_item(turn_id@, item_id@, item@, done),
{
    match content_of_item(item) {
        None => None,
        Some(content) => {
            let id = id_of_item(turn_id, item_id);
            Some(
                content
                    .entry("id", Json::string(id.as_str()))
                    .entry("turn_id", Json::string(turn_id))
                    .entry("status", Json::string(status_of_item(item, done))),
            )
        },
    }
}

/// The public form of the answer to a function call.
pub fn output_document(turn_id: &str, item_id: &str, item: &Json) -> (json: Json)
    ensures
        json@ == public_output(turn_id@, item_id@, item@),
{
    let failed = item.field("success").is_false() || item.field("status").is_text("failed");
    let text = collect_output_texts(item.field("contentItems"));
    let id = joined("output_", id_of_item(turn_id, item_id).as_str());
    let (status, output, error) = if failed {
        ("failed", Json::Null, Json::Text(text))
    } else {
        ("completed", Json::Text(text), Json::Null)
    };
    Json::object()
        .entry("id", Json::string(id.as_str()))
        .entry("type", Json::string("function_call_output"))
        .entry("turn_id", Json::string(turn_id))
        .entry("call_id", item.field("id").copy())
        .entry("status", Json::string(status))
        .entry("output", output)
        .entry("error", error)
}

} // verus!
