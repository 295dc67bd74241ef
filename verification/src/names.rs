//! That the names by which documents are read differ from each other.
use vstd::prelude::*;

verus! {

/// The names of an item's fields differ.
pub proof fn lemma_item_names()
    ensures
        "id"@ != "type"@,
        "id"@ != "role"@,
        "id"@ != "phase"@,
        "id"@ != "content"@,
        "id"@ != "summary"@,
        "id"@ != "call_id"@,
        "id"@ != "name"@,
        "id"@ != "arguments"@,
        "id"@ != "turn_id"@,
        "id"@ != "status"@,
        "id"@ != "output"@,
        "id"@ != "error"@,
        "id"@ != "text"@,
        "type"@ != "role"@,
        "type"@ != "phase"@,
        "type"@ != "content"@,
        "type"@ != "summary"@,
        "type"@ != "call_id"@,
        "type"@ != "name"@,
        "type"@ != "arguments"@,
        "type"@ != "turn_id"@,
        "type"@ != "status"@,
        "type"@ != "output"@,
        "type"@ != "error"@,
        "type"@ != "text"@,
        "role"@ != "phase"@,
        "role"@ != "content"@,
        "role"@ != "summary"@,
        "role"@ != "call_id"@,
        "role"@ != "name"@,
        "role"@ != "arguments"@,
        "role"@ != "turn_id"@,
        "role"@ != "status"@,
        "role"@ != "output"@,
        "role"@ != "error"@,
        "role"@ != "text"@,
        "phase"@ != "content"@,
        "phase"@ != "summary"@,
        "phase"@ != "call_id"@,
        "phase"@ != "name"@,
        "phase"@ != "arguments"@,
        "phase"@ != "turn_id"@,
        "phase"@ != "status"@,
        "phase"@ != "output"@,
        "phase"@ != "error"@,
        "phase"@ != "text"@,
        "content"@ != "summary"@,
        "content"@ != "call_id"@,
        "content"@ != "name"@,
        "content"@ != "arguments"@,
        "content"@ != "turn_id"@,
        "content"@ != "status"@,
        "content"@ != "output"@,
        "content"@ != "error"@,
        "content"@ != "text"@,
        "summary"@ != "call_id"@,
        "summary"@ != "name"@,
        "summary"@ != "arguments"@,
        "summary"@ != "turn_id"@,
        "summary"@ != "status"@,
        "summary"@ != "output"@,
        "summary"@ != "error"@,
        "summary"@ != "text"@,
        "call_id"@ != "name"@,
        "call_id"@ != "arguments"@,
        "call_id"@ != "turn_id"@,
        "call_id"@ != "status"@,
        "call_id"@ != "output"@,
        "call_id"@ != "error"@,
        "call_id"@ != "text"@,
        "name"@ != "arguments"@,
        "name"@ != "turn_id"@,
        "name"@ != "status"@,
        "name"@ != "output"@,
        "name"@ != "error"@,
        "name"@ != "text"@,
        "arguments"@ != "turn_id"@,
        "arguments"@ != "status"@,
        "arguments"@ != "output"@,
        "arguments"@ != "error"@,
        "arguments"@ != "text"@,
        "turn_id"@ != "status"@,
        "turn_id"@ != "output"@,
        "turn_id"@ != "error"@,
        "turn_id"@ != "text"@,
        "status"@ != "output"@,
        "status"@ != "error"@,
        "status"@ != "text"@,
        "output"@ != "error"@,
        "output"@ != "text"@,
        "error"@ != "text"@,
{
    reveal_strlit("id");
    reveal_strlit("type");
    reveal_strlit("role");
    reveal_strlit("phase");
    reveal_strlit("content");
    reveal_strlit("summary");
    reveal_strlit("call_id");
    reveal_strlit("name");
    reveal_strlit("arguments");
    reveal_strlit("turn_id");
    reveal_strlit("status");
    reveal_strlit("output");
    reveal_strlit("error");
    reveal_strlit("text");
    assert("id"@.len() == 2);
    assert("type"@.len() == 4);
    assert("role"@.len() == 4);
    assert("phase"@.len() == 5);
    assert("content"@.len() == 7);
    assert("summary"@.len() == 7);
    assert("call_id"@.len() == 7);
    assert("name"@.len() == 4);
    assert("arguments"@.len() == 9);
    assert("turn_id"@.len() == 7);
    assert("status"@.len() == 6);
    assert("output"@.len() == 6);
    assert("error"@.len() == 5);
    assert("text"@.len() == 4);
    assert("type"@[0] != "role"@[0]);
    assert("type"@[0] != "name"@[0]);
    assert("type"@[1] != "text"@[1]);
    assert("role"@[0] != "name"@[0]);
    assert("role"@[0] != "text"@[0]);
    assert("phase"@[0] != "error"@[0]);
    assert("content"@[0] != "summary"@[0]);
    assert("content"@[1] != "call_id"@[1]);
    assert("content"@[0] != "turn_id"@[0]);
    assert("summary"@[0] != "call_id"@[0]);
    assert("summary"@[0] != "turn_id"@[0]);
    assert("call_id"@[0] != "turn_id"@[0]);
    assert("name"@[0] != "text"@[0]);
    assert("status"@[0] != "output"@[0]);
}

/// The types of the backend's items differ.
pub proof fn lemma_item_types()
    ensures
        "userMessage"@ != "agentMessage"@,
        "userMessage"@ != "reasoning"@,
        "userMessage"@ != "dynamicToolCall"@,
        "agentMessage"@ != "reasoning"@,
        "agentMessage"@ != "dynamicToolCall"@,
        "reasoning"@ != "dynamicToolCall"@,
{
    reveal_strlit("userMessage");
    reveal_strlit("agentMessage");
    reveal_strlit("reasoning");
    reveal_strlit("dynamicToolCall");
    assert("userMessage"@.len() == 11);
    assert("agentMessage"@.len() == 12);
    assert("reasoning"@.len() == 9);
    assert("dynamicToolCall"@.len() == 15);
}

/// The names of a turn's fields differ.
pub proof fn lemma_turn_names()
    ensures
        "id"@ != "object"@,
        "id"@ != "session_id"@,
        "id"@ != "agent_id"@,
        "id"@ != "created_at"@,
        "id"@ != "started_at"@,
        "id"@ != "completed_at"@,
        "id"@ != "status"@,
        "id"@ != "usage"@,
        "id"@ != "subagent_id"@,
        "id"@ != "error"@,
        "object"@ != "session_id"@,
        "object"@ != "agent_id"@,
        "object"@ != "created_at"@,
        "object"@ != "started_at"@,
        "object"@ != "completed_at"@,
        "object"@ != "status"@,
        "object"@ != "usage"@,
        "object"@ != "subagent_id"@,
        "object"@ != "error"@,
        "session_id"@ != "agent_id"@,
        "session_id"@ != "created_at"@,
        "session_id"@ != "started_at"@,
        "session_id"@ != "completed_at"@,
        "session_id"@ != "status"@,
        "session_id"@ != "usage"@,
        "session_id"@ != "subagent_id"@,
        "session_id"@ != "error"@,
        "agent_id"@ != "created_at"@,
        "agent_id"@ != "started_at"@,
        "agent_id"@ != "completed_at"@,
        "agent_id"@ != "status"@,
        "agent_id"@ != "usage"@,
        "agent_id"@ != "subagent_id"@,
        "agent_id"@ != "error"@,
        "created_at"@ != "started_at"@,
        "created_at"@ != "completed_at"@,
        "created_at"@ != "status"@,
        "created_at"@ != "usage"@,
        "created_at"@ != "subagent_id"@,
        "created_at"@ != "error"@,
        "started_at"@ != "completed_at"@,
        "started_at"@ != "status"@,
        "started_at"@ != "usage"@,
        "started_at"@ != "subagent_id"@,
        "started_at"@ != "error"@,
        "completed_at"@ != "status"@,
        "completed_at"@ != "usage"@,
        "completed_at"@ != "subagent_id"@,
        "completed_at"@ != "error"@,
        "status"@ != "usage"@,
        "status"@ != "subagent_id"@,
        "status"@ != "error"@,
        "usage"@ != "subagent_id"@,
        "usage"@ != "error"@,
        "subagent_id"@ != "error"@,
{
    reveal_strlit("id");
    reveal_strlit("object");
    reveal_strlit("session_id");
    reveal_strlit("agent_id");
    reveal_strlit("created_at");
    reveal_strlit("started_at");
    reveal_strlit("completed_at");
    reveal_strlit("status");
    reveal_strlit("usage");
    reveal_strlit("subagent_id");
    reveal_strlit("error");
    assert("id"@.len() == 2);
    assert("object"@.len() == 6);
    assert("session_id"@.len() == 10);
    assert("agent_id"@.len() == 8);
    assert("created_at"@.len() == 10);
    assert("started_at"@.len() == 10);
    assert("completed_at"@.len() == 12);
    assert("status"@.len() == 6);
    assert("usage"@.len() == 5);
    assert("subagent_id"@.len() == 11);
    assert("error"@.len() == 5);
    assert("object"@[0] != "status"@[0]);
    assert("session_id"@[0] != "created_at"@[0]);
    assert("session_id"@[1] != "started_at"@[1]);
    assert("created_at"@[0] != "started_at"@[0]);
    assert("usage"@[0] != "error"@[0]);
}

/// The words for the status of a turn differ.
pub proof fn lemma_turn_words()
    ensures
        "completed"@ != "interrupted"@,
        "completed"@ != "failed"@,
        "completed"@ != "cancelled"@,
        "completed"@ != "in_progress"@,
        "completed"@ != "queued"@,
        "completed"@ != "waiting"@,
        "interrupted"@ != "failed"@,
        "interrupted"@ != "cancelled"@,
        "interrupted"@ != "in_progress"@,
        "interrupted"@ != "queued"@,
        "interrupted"@ != "waiting"@,
        "failed"@ != "cancelled"@,
        "failed"@ != "in_progress"@,
        "failed"@ != "queued"@,
        "failed"@ != "waiting"@,
        "cancelled"@ != "in_progress"@,
        "cancelled"@ != "queued"@,
        "cancelled"@ != "waiting"@,
        "in_progress"@ != "queued"@,
        "in_progress"@ != "waiting"@,
        "queued"@ != "waiting"@,
{
    reveal_strlit("completed");
    reveal_strlit("interrupted");
    reveal_strlit("failed");
    reveal_strlit("cancelled");
    reveal_strlit("in_progress");
    reveal_strlit("queued");
    reveal_strlit("waiting");
    assert("completed"@.len() == 9);
    assert("interrupted"@.len() == 11);
    assert("failed"@.len() == 6);
    assert("cancelled"@.len() == 9);
    assert("in_progress"@.len() == 11);
    assert("queued"@.len() == 6);
    assert("waiting"@.len() == 7);
    assert("completed"@[1] != "cancelled"@[1]);
    assert("interrupted"@[2] != "in_progress"@[2]);
    assert("failed"@[0] != "queued"@[0]);
}

/// The names of an event's fields differ.
pub proof fn lemma_event_fields()
    ensures
        "type"@ != "session_id"@,
        "type"@ != "turn_id"@,
        "type"@ != "turn"@,
        "type"@ != "item"@,
        "type"@ != "item_id"@,
        "type"@ != "output_index"@,
        "type"@ != "content_index"@,
        "type"@ != "text"@,
        "type"@ != "session"@,
        "type"@ != "event_id"@,
        "type"@ != "method"@,
        "type"@ != "params"@,
        "type"@ != "error"@,
        "session_id"@ != "turn_id"@,
        "session_id"@ != "turn"@,
        "session_id"@ != "item"@,
        "session_id"@ != "item_id"@,
        "session_id"@ != "output_index"@,
        "session_id"@ != "content_index"@,
        "session_id"@ != "text"@,
        "session_id"@ != "session"@,
        "session_id"@ != "event_id"@,
        "session_id"@ != "method"@,
        "session_id"@ != "params"@,
        "session_id"@ != "error"@,
        "turn_id"@ != "turn"@,
        "turn_id"@ != "item"@,
        "turn_id"@ != "item_id"@,
        "turn_id"@ != "output_index"@,
        "turn_id"@ != "content_index"@,
        "turn_id"@ != "text"@,
        "turn_id"@ != "session"@,
        "turn_id"@ != "event_id"@,
        "turn_id"@ != "method"@,
        "turn_id"@ != "params"@,
        "turn_id"@ != "error"@,
        "turn"@ != "item"@,
        "turn"@ != "item_id"@,
        "turn"@ != "output_index"@,
        "turn"@ != "content_index"@,
        "turn"@ != "text"@,
        "turn"@ != "session"@,
        "turn"@ != "event_id"@,
        "turn"@ != "method"@,
        "turn"@ != "params"@,
        "turn"@ != "error"@,
        "item"@ != "item_id"@,
        "item"@ != "output_index"@,
        "item"@ != "content_index"@,
        "item"@ != "text"@,
        "item"@ != "session"@,
        "item"@ != "event_id"@,
        "item"@ != "method"@,
        "item"@ != "params"@,
        "item"@ != "error"@,
        "item_id"@ != "output_index"@,
        "item_id"@ != "content_index"@,
        "item_id"@ != "text"@,
        "item_id"@ != "session"@,
        "item_id"@ != "event_id"@,
        "item_id"@ != "method"@,
        "item_id"@ != "params"@,
        "item_id"@ != "error"@,
        "output_index"@ != "content_index"@,
        "output_index"@ != "text"@,
        "output_index"@ != "session"@,
        "output_index"@ != "event_id"@,
        "output_index"@ != "method"@,
        "output_index"@ != "params"@,
        "output_index"@ != "error"@,
        "content_index"@ != "text"@,
        "content_index"@ != "session"@,
        "content_index"@ != "event_id"@,
        "content_index"@ != "method"@,
        "content_index"@ != "params"@,
        "content_index"@ != "error"@,
        "text"@ != "session"@,
        "text"@ != "event_id"@,
        "text"@ != "method"@,
        "text"@ != "params"@,
        "text"@ != "error"@,
        "session"@ != "event_id"@,
        "session"@ != "method"@,
        "session"@ != "params"@,
        "session"@ != "error"@,
        "event_id"@ != "method"@,
        "event_id"@ != "params"@,
        "event_id"@ != "error"@,
        "method"@ != "params"@,
        "method"@ != "error"@,
        "params"@ != "error"@,
{
    reveal_strlit("type");
    reveal_strlit("session_id");
    reveal_strlit("turn_id");
    reveal_strlit("turn");
    reveal_strlit("item");
    reveal_strlit("item_id");
    reveal_strlit("output_index");
    reveal_strlit("content_index");
    reveal_strlit("text");
    reveal_strlit("session");
    reveal_strlit("event_id");
    reveal_strlit("method");
    reveal_strlit("params");
    reveal_strlit("error");
    assert("type"@.len() == 4);
    assert("session_id"@.len() == 10);
    assert("turn_id"@.len() == 7);
    assert("turn"@.len() == 4);
    assert("item"@.len() == 4);
    assert("item_id"@.len() == 7);
    assert("output_index"@.len() == 12);
    assert("content_index"@.len() == 13);
    assert("text"@.len() == 4);
    assert("session"@.len() == 7);
    assert("event_id"@.len() == 8);
    assert("method"@.len() == 6);
    assert("params"@.len() == 6);
    assert("error"@.len() == 5);
    assert("type"@[1] != "turn"@[1]);
    assert("type"@[0] != "item"@[0]);
    assert("type"@[1] != "text"@[1]);
    assert("turn_id"@[0] != "item_id"@[0]);
    assert("turn_id"@[0] != "session"@[0]);
    assert("turn"@[0] != "item"@[0]);
    assert("turn"@[1] != "text"@[1]);
    assert("item"@[0] != "text"@[0]);
    assert("item_id"@[0] != "session"@[0]);
    assert("method"@[0] != "params"@[0]);
}

/// The names of a public session's fields differ.
pub proof fn lemma_session_names()
    ensures
        "id"@ != "object"@,
        "id"@ != "agent"@,
        "id"@ != "created_at"@,
        "id"@ != "last_active_at"@,
        "id"@ != "environment"@,
        "id"@ != "metadata"@,
        "id"@ != "vault_ids"@,
        "id"@ != "required_actions"@,
        "id"@ != "status"@,
        "id"@ != "error"@,
        "id"@ != "usage"@,
        "object"@ != "agent"@,
        "object"@ != "created_at"@,
        "object"@ != "last_active_at"@,
        "object"@ != "environment"@,
        "object"@ != "metadata"@,
        "object"@ != "vault_ids"@,
        "object"@ != "required_actions"@,
        "object"@ != "status"@,
        "object"@ != "error"@,
        "object"@ != "usage"@,
        "agent"@ != "created_at"@,
        "agent"@ != "last_active_at"@,
        "agent"@ != "environment"@,
        "agent"@ != "metadata"@,
        "agent"@ != "vault_ids"@,
        "agent"@ != "required_actions"@,
        "agent"@ != "status"@,
        "agent"@ != "error"@,
        "agent"@ != "usage"@,
        "created_at"@ != "last_active_at"@,
        "created_at"@ != "environment"@,
        "created_at"@ != "metadata"@,
        "created_at"@ != "vault_ids"@,
        "created_at"@ != "required_actions"@,
        "created_at"@ != "status"@,
        "created_at"@ != "error"@,
        "created_at"@ != "usage"@,
        "last_active_at"@ != "environment"@,
        "last_active_at"@ != "metadata"@,
        "last_active_at"@ != "vault_ids"@,
        "last_active_at"@ != "required_actions"@,
        "last_active_at"@ != "status"@,
        "last_active_at"@ != "error"@,
        "last_active_at"@ != "usage"@,
        "environment"@ != "metadata"@,
        "environment"@ != "vault_ids"@,
        "environment"@ != "required_actions"@,
        "environment"@ != "status"@,
        "environment"@ != "error"@,
        "environment"@ != "usage"@,
        "metadata"@ != "vault_ids"@,
        "metadata"@ != "required_actions"@,
        "metadata"@ != "status"@,
        "metadata"@ != "error"@,
        "metadata"@ != "usage"@,
        "vault_ids"@ != "required_actions"@,
        "vault_ids"@ != "status"@,
        "vault_ids"@ != "error"@,
        "vault_ids"@ != "usage"@,
        "required_actions"@ != "status"@,
        "required_actions"@ != "error"@,
        "required_actions"@ != "usage"@,
        "status"@ != "error"@,
        "status"@ != "usage"@,
        "error"@ != "usage"@,
{
    reveal_strlit("id");
    reveal_strlit("object");
    reveal_strlit("agent");
    reveal_strlit("created_at");
    reveal_strlit("last_active_at");
    reveal_strlit("environment");
    reveal_strlit("metadata");
    reveal_strlit("vault_ids");
    reveal_strlit("required_actions");
    reveal_strlit("status");
    reveal_strlit("error");
    reveal_strlit("usage");
    assert("id"@.len() == 2);
    assert("object"@.len() == 6);
    assert("agent"@.len() == 5);
    assert("created_at"@.len() == 10);
    assert("last_active_at"@.len() == 14);
    assert("environment"@.len() == 11);
    assert("metadata"@.len() == 8);
    assert("vault_ids"@.len() == 9);
    assert("required_actions"@.len() == 16);
    assert("status"@.len() == 6);
    assert("error"@.len() == 5);
    assert("usage"@.len() == 5);
    assert("object"@[0] != "status"@[0]);
    assert("agent"@[0] != "error"@[0]);
    assert("agent"@[0] != "usage"@[0]);
    assert("error"@[0] != "usage"@[0]);
}

/// The names of an action's fields differ.
pub proof fn lemma_action_names()
    ensures
        "type"@ != "turn_id"@,
        "type"@ != "call_id"@,
        "type"@ != "turnId"@,
        "type"@ != "callId"@,
        "type"@ != "name"@,
        "type"@ != "arguments"@,
        "type"@ != "status"@,
        "type"@ != "success"@,
        "type"@ != "contentItems"@,
        "type"@ != "text"@,
        "type"@ != "threadId"@,
        "type"@ != "sessionId"@,
        "type"@ != "action"@,
        "turn_id"@ != "call_id"@,
        "turn_id"@ != "turnId"@,
        "turn_id"@ != "callId"@,
        "turn_id"@ != "name"@,
        "turn_id"@ != "arguments"@,
        "turn_id"@ != "status"@,
        "turn_id"@ != "success"@,
        "turn_id"@ != "contentItems"@,
        "turn_id"@ != "text"@,
        "turn_id"@ != "threadId"@,
        "turn_id"@ != "sessionId"@,
        "turn_id"@ != "action"@,
        "call_id"@ != "turnId"@,
        "call_id"@ != "callId"@,
        "call_id"@ != "name"@,
        "call_id"@ != "arguments"@,
        "call_id"@ != "status"@,
        "call_id"@ != "success"@,
        "call_id"@ != "contentItems"@,
        "call_id"@ != "text"@,
        "call_id"@ != "threadId"@,
        "call_id"@ != "sessionId"@,
        "call_id"@ != "action"@,
        "turnId"@ != "callId"@,
        "turnId"@ != "name"@,
        "turnId"@ != "arguments"@,
        "turnId"@ != "status"@,
        "turnId"@ != "success"@,
        "turnId"@ != "contentItems"@,
        "turnId"@ != "text"@,
        "turnId"@ != "threadId"@,
        "turnId"@ != "sessionId"@,
        "turnId"@ != "action"@,
        "callId"@ != "name"@,
        "callId"@ != "arguments"@,
        "callId"@ != "status"@,
        "callId"@ != "success"@,
        "callId"@ != "contentItems"@,
        "callId"@ != "text"@,
        "callId"@ != "threadId"@,
        "callId"@ != "sessionId"@,
        "callId"@ != "action"@,
        "name"@ != "arguments"@,
        "name"@ != "status"@,
        "name"@ != "success"@,
        "name"@ != "contentItems"@,
        "name"@ != "text"@,
        "name"@ != "threadId"@,
        "name"@ != "sessionId"@,
        "name"@ != "action"@,
        "arguments"@ != "status"@,
        "arguments"@ != "success"@,
        "arguments"@ != "contentItems"@,
        "arguments"@ != "text"@,
        "arguments"@ != "threadId"@,
        "arguments"@ != "sessionId"@,
        "arguments"@ != "action"@,
        "status"@ != "success"@,
        "status"@ != "contentItems"@,
        "status"@ != "text"@,
        "status"@ != "threadId"@,
        "status"@ != "sessionId"@,
        "status"@ != "action"@,
        "success"@ != "contentItems"@,
        "success"@ != "text"@,
        "success"@ != "threadId"@,
        "success"@ != "sessionId"@,
        "success"@ != "action"@,
        "contentItems"@ != "text"@,
        "contentItems"@ != "threadId"@,
        "contentItems"@ != "sessionId"@,
        "contentItems"@ != "action"@,
        "text"@ != "threadId"@,
        "text"@ != "sessionId"@,
        "text"@ != "action"@,
        "threadId"@ != "sessionId"@,
        "threadId"@ != "action"@,
        "sessionId"@ != "action"@,
{
    reveal_strlit("type");
    reveal_strlit("turn_id");
    reveal_strlit("call_id");
    reveal_strlit("turnId");
    reveal_strlit("callId");
    reveal_strlit("name");
    reveal_strlit("arguments");
    reveal_strlit("status");
    reveal_strlit("success");
    reveal_strlit("contentItems");
    reveal_strlit("text");
    reveal_strlit("threadId");
    reveal_strlit("sessionId");
    reveal_strlit("action");
    assert("type"@.len() == 4);
    assert("turn_id"@.len() == 7);
    assert("call_id"@.len() == 7);
    assert("turnId"@.len() == 6);
    assert("callId"@.len() == 6);
    assert("name"@.len() == 4);
    assert("arguments"@.len() == 9);
    assert("status"@.len() == 6);
    assert("success"@.len() == 7);
    assert("contentItems"@.len() == 12);
    assert("text"@.len() == 4);
    assert("threadId"@.len() == 8);
    assert("sessionId"@.len() == 9);
    assert("action"@.len() == 6);
    assert("type"@[0] != "name"@[0]);
    assert("type"@[1] != "text"@[1]);
    assert("turn_id"@[0] != "call_id"@[0]);
    assert("turn_id"@[0] != "success"@[0]);
    assert("call_id"@[0] != "success"@[0]);
    assert("turnId"@[0] != "callId"@[0]);
    assert("turnId"@[0] != "status"@[0]);
    assert("turnId"@[0] != "action"@[0]);
    assert("callId"@[0] != "status"@[0]);
    assert("callId"@[0] != "action"@[0]);
    assert("name"@[0] != "text"@[0]);
    assert("arguments"@[0] != "sessionId"@[0]);
    assert("status"@[0] != "action"@[0]);
}

/// The names of the parameters of the backend's methods differ.
pub proof fn lemma_call_names()
    ensures
        "threadId"@ != "excludeTurns"@,
        "threadId"@ != "config"@,
        "threadId"@ != "model"@,
        "threadId"@ != "developerInstructions"@,
        "threadId"@ != "environments"@,
        "threadId"@ != "dynamicTools"@,
        "threadId"@ != "approvalPolicy"@,
        "threadId"@ != "sandbox"@,
        "threadId"@ != "ephemeral"@,
        "threadId"@ != "name"@,
        "threadId"@ != "input"@,
        "threadId"@ != "type"@,
        "threadId"@ != "text"@,
        "threadId"@ != "cursor"@,
        "threadId"@ != "limit"@,
        "threadId"@ != "itemsView"@,
        "threadId"@ != "turnId"@,
        "threadId"@ != "environmentId"@,
        "threadId"@ != "cwd"@,
        "threadId"@ != "description"@,
        "threadId"@ != "inputSchema"@,
        "excludeTurns"@ != "config"@,
        "excludeTurns"@ != "model"@,
        "excludeTurns"@ != "developerInstructions"@,
        "excludeTurns"@ != "environments"@,
        "excludeTurns"@ != "dynamicTools"@,
        "excludeTurns"@ != "approvalPolicy"@,
        "excludeTurns"@ != "sandbox"@,
        "excludeTurns"@ != "ephemeral"@,
        "excludeTurns"@ != "name"@,
        "excludeTurns"@ != "input"@,
        "excludeTurns"@ != "type"@,
        "excludeTurns"@ != "text"@,
        "excludeTurns"@ != "cursor"@,
        "excludeTurns"@ != "limit"@,
        "excludeTurns"@ != "itemsView"@,
        "excludeTurns"@ != "turnId"@,
        "excludeTurns"@ != "environmentId"@,
        "excludeTurns"@ != "cwd"@,
        "excludeTurns"@ != "description"@,
        "excludeTurns"@ != "inputSchema"@,
        "config"@ != "model"@,
        "config"@ != "developerInstructions"@,
        "config"@ != "environments"@,
        "config"@ != "dynamicTools"@,
        "config"@ != "approvalPolicy"@,
        "config"@ != "sandbox"@,
        "config"@ != "ephemeral"@,
        "config"@ != "name"@,
        "config"@ != "input"@,
        "config"@ != "type"@,
        "config"@ != "text"@,
        "config"@ != "cursor"@,
        "config"@ != "limit"@,
        "config"@ != "itemsView"@,
        "config"@ != "turnId"@,
        "config"@ != "environmentId"@,
        "config"@ != "cwd"@,
        "config"@ != "description"@,
        "config"@ != "inputSchema"@,
        "model"@ != "developerInstructions"@,
        "model"@ != "environments"@,
        "model"@ != "dynamicTools"@,
        "model"@ != "approvalPolicy"@,
        "model"@ != "sandbox"@,
        "model"@ != "ephemeral"@,
        "model"@ != "name"@,
        "model"@ != "input"@,
        "model"@ != "type"@,
        "model"@ != "text"@,
        "model"@ != "cursor"@,
        "model"@ != "limit"@,
        "model"@ != "itemsView"@,
        "model"@ != "turnId"@,
        "model"@ != "environmentId"@,
        "model"@ != "cwd"@,
        "model"@ != "description"@,
        "model"@ != "inputSchema"@,
        "developerInstructions"@ != "environments"@,
        "developerInstructions"@ != "dynamicTools"@,
        "developerInstructions"@ != "approvalPolicy"@,
        "developerInstructions"@ != "sandbox"@,
        "developerInstructions"@ != "ephemeral"@,
        "developerInstructions"@ != "name"@,
        "developerInstructions"@ != "input"@,
        "developerInstructions"@ != "type"@,
        "developerInstructions"@ != "text"@,
        "developerInstructions"@ != "cursor"@,
        "developerInstructions"@ != "limit"@,
        "developerInstructions"@ != "itemsView"@,
        "developerInstructions"@ != "turnId"@,
        "developerInstructions"@ != "environmentId"@,
        "developerInstructions"@ != "cwd"@,
        "developerInstructions"@ != "description"@,
        "developerInstructions"@ != "inputSchema"@,
        "environments"@ != "dynamicTools"@,
        "environments"@ != "approvalPolicy"@,
        "environments"@ != "sandbox"@,
        "environments"@ != "ephemeral"@,
        "environments"@ != "name"@,
        "environments"@ != "input"@,
        "environments"@ != "type"@,
        "environments"@ != "text"@,
        "environments"@ != "cursor"@,
        "environments"@ != "limit"@,
        "environments"@ != "itemsView"@,
        "environments"@ != "turnId"@,
        "environments"@ != "environmentId"@,
        "environments"@ != "cwd"@,
        "environments"@ != "description"@,
        "environments"@ != "inputSchema"@,
        "dynamicTools"@ != "approvalPolicy"@,
        "dynamicTools"@ != "sandbox"@,
        "dynamicTools"@ != "ephemeral"@,
        "dynamicTools"@ != "name"@,
        "dynamicTools"@ != "input"@,
        "dynamicTools"@ != "type"@,
        "dynamicTools"@ != "text"@,
        "dynamicTools"@ != "cursor"@,
        "dynamicTools"@ != "limit"@,
        "dynamicTools"@ != "itemsView"@,
        "dynamicTools"@ != "turnId"@,
        "dynamicTools"@ != "environmentId"@,
        "dynamicTools"@ != "cwd"@,
        "dynamicTools"@ != "description"@,
        "dynamicTools"@ != "inputSchema"@,
        "approvalPolicy"@ != "sandbox"@,
        "approvalPolicy"@ != "ephemeral"@,
        "approvalPolicy"@ != "name"@,
        "approvalPolicy"@ != "input"@,
        "approvalPolicy"@ != "type"@,
        "approvalPolicy"@ != "text"@,
        "approvalPolicy"@ != "cursor"@,
        "approvalPolicy"@ != "limit"@,
        "approvalPolicy"@ != "itemsView"@,
        "approvalPolicy"@ != "turnId"@,
        "approvalPolicy"@ != "environmentId"@,
        "approvalPolicy"@ != "cwd"@,
        "approvalPolicy"@ != "description"@,
        "approvalPolicy"@ != "inputSchema"@,
        "sandbox"@ != "ephemeral"@,
        "sandbox"@ != "name"@,
        "sandbox"@ != "input"@,
        "sandbox"@ != "type"@,
        "sandbox"@ != "text"@,
        "sandbox"@ != "cursor"@,
        "sandbox"@ != "limit"@,
        "sandbox"@ != "itemsView"@,
        "sandbox"@ != "turnId"@,
        "sandbox"@ != "environmentId"@,
        "sandbox"@ != "cwd"@,
        "sandbox"@ != "description"@,
        "sandbox"@ != "inputSchema"@,
        "ephemeral"@ != "name"@,
        "ephemeral"@ != "input"@,
        "ephemeral"@ != "type"@,
        "ephemeral"@ != "text"@,
        "ephemeral"@ != "cursor"@,
        "ephemeral"@ != "limit"@,
        "ephemeral"@ != "itemsView"@,
        "ephemeral"@ != "turnId"@,
        "ephemeral"@ != "environmentId"@,
        "ephemeral"@ != "cwd"@,
        "ephemeral"@ != "description"@,
        "ephemeral"@ != "inputSchema"@,
        "name"@ != "input"@,
        "name"@ != "type"@,
        "name"@ != "text"@,
        "name"@ != "cursor"@,
        "name"@ != "limit"@,
        "name"@ != "itemsView"@,
        "name"@ != "turnId"@,
        "name"@ != "environmentId"@,
        "name"@ != "cwd"@,
        "name"@ != "description"@,
        "name"@ != "inputSchema"@,
        "input"@ != "type"@,
        "input"@ != "text"@,
        "input"@ != "cursor"@,
        "input"@ != "limit"@,
        "input"@ != "itemsView"@,
        "input"@ != "turnId"@,
        "input"@ != "environmentId"@,
        "input"@ != "cwd"@,
        "input"@ != "description"@,
        "input"@ != "inputSchema"@,
        "type"@ != "text"@,
        "type"@ != "cursor"@,
        "type"@ != "limit"@,
        "type"@ != "itemsView"@,
        "type"@ != "turnId"@,
        "type"@ != "environmentId"@,
        "type"@ != "cwd"@,
        "type"@ != "description"@,
        "type"@ != "inputSchema"@,
        "text"@ != "cursor"@,
        "text"@ != "limit"@,
        "text"@ != "itemsView"@,
        "text"@ != "turnId"@,
        "text"@ != "environmentId"@,
        "text"@ != "cwd"@,
        "text"@ != "description"@,
        "text"@ != "inputSchema"@,
        "cursor"@ != "limit"@,
        "cursor"@ != "itemsView"@,
        "cursor"@ != "turnId"@,
        "cursor"@ != "environmentId"@,
        "cursor"@ != "cwd"@,
        "cursor"@ != "description"@,
        "cursor"@ != "inputSchema"@,
        "limit"@ != "itemsView"@,
        "limit"@ != "turnId"@,
        "limit"@ != "environmentId"@,
        "limit"@ != "cwd"@,
        "limit"@ != "description"@,
        "limit"@ != "inputSchema"@,
        "itemsView"@ != "turnId"@,
        "itemsView"@ != "environmentId"@,
        "itemsView"@ != "cwd"@,
        "itemsView"@ != "description"@,
        "itemsView"@ != "inputSchema"@,
        "turnId"@ != "environmentId"@,
        "turnId"@ != "cwd"@,
        "turnId"@ != "description"@,
        "turnId"@ != "inputSchema"@,
        "environmentId"@ != "cwd"@,
        "environmentId"@ != "description"@,
        "environmentId"@ != "inputSchema"@,
        "cwd"@ != "description"@,
        "cwd"@ != "inputSchema"@,
        "description"@ != "inputSchema"@,
{
    reveal_strlit("threadId");
    reveal_strlit("excludeTurns");
    reveal_strlit("config");
    reveal_strlit("model");
    reveal_strlit("developerInstructions");
    reveal_strlit("environments");
    reveal_strlit("dynamicTools");
    reveal_strlit("approvalPolicy");
    reveal_strlit("sandbox");
    reveal_strlit("ephemeral");
    reveal_strlit("name");
    reveal_strlit("input");
    reveal_strlit("type");
    reveal_strlit("text");
    reveal_strlit("cursor");
    reveal_strlit("limit");
    reveal_strlit("itemsView");
    reveal_strlit("turnId");
    reveal_strlit("environmentId");
    reveal_strlit("cwd");
    reveal_strlit("description");
    reveal_strlit("inputSchema");
    assert("threadId"@.len() == 8);
    assert("excludeTurns"@.len() == 12);
    assert("config"@.len() == 6);
    assert("model"@.len() == 5);
    assert("developerInstructions"@.len() == 21);
    assert("environments"@.len() == 12);
    assert("dynamicTools"@.len() == 12);
    assert("approvalPolicy"@.len() == 14);
    assert("sandbox"@.len() == 7);
    assert("ephemeral"@.len() == 9);
    assert("name"@.len() == 4);
    assert("input"@.len() == 5);
    assert("type"@.len() == 4);
    assert("text"@.len() == 4);
    assert("cursor"@.len() == 6);
    assert("limit"@.len() == 5);
    assert("itemsView"@.len() == 9);
    assert("turnId"@.len() == 6);
    assert("environmentId"@.len() == 13);
    assert("cwd"@.len() == 3);
    assert("description"@.len() == 11);
    assert("inputSchema"@.len() == 11);
    assert("excludeTurns"@[1] != "environments"@[1]);
    assert("excludeTurns"@[0] != "dynamicTools"@[0]);
    assert("config"@[1] != "cursor"@[1]);
    assert("config"@[0] != "turnId"@[0]);
    assert("model"@[0] != "input"@[0]);
    assert("model"@[0] != "limit"@[0]);
    assert("environments"@[0] != "dynamicTools"@[0]);
    assert("ephemeral"@[0] != "itemsView"@[0]);
    assert("name"@[0] != "type"@[0]);
    assert("name"@[0] != "text"@[0]);
    assert("input"@[0] != "limit"@[0]);
    assert("type"@[1] != "text"@[1]);
    assert("cursor"@[0] != "turnId"@[0]);
    assert("description"@[0] != "inputSchema"@[0]);
}

/// The names of an agent's fields differ.
pub proof fn lemma_agent_names()
    ensures
        "id"@ != "model"@,
        "id"@ != "instructions"@,
        "id"@ != "name"@,
        "id"@ != "multi_agent"@,
        "id"@ != "reasoning"@,
        "id"@ != "service_tier"@,
        "id"@ != "text"@,
        "id"@ != "tools"@,
        "id"@ != "object"@,
        "id"@ != "created_at"@,
        "id"@ != "updated_at"@,
        "id"@ != "metadata"@,
        "id"@ != "effort"@,
        "id"@ != "summary"@,
        "model"@ != "instructions"@,
        "model"@ != "name"@,
        "model"@ != "multi_agent"@,
        "model"@ != "reasoning"@,
        "model"@ != "service_tier"@,
        "model"@ != "text"@,
        "model"@ != "tools"@,
        "model"@ != "object"@,
        "model"@ != "created_at"@,
        "model"@ != "updated_at"@,
        "model"@ != "metadata"@,
        "model"@ != "effort"@,
        "model"@ != "summary"@,
        "instructions"@ != "name"@,
        "instructions"@ != "multi_agent"@,
        "instructions"@ != "reasoning"@,
        "instructions"@ != "service_tier"@,
        "instructions"@ != "text"@,
        "instructions"@ != "tools"@,
        "instructions"@ != "object"@,
        "instructions"@ != "created_at"@,
        "instructions"@ != "updated_at"@,
        "instructions"@ != "metadata"@,
        "instructions"@ != "effort"@,
        "instructions"@ != "summary"@,
        "name"@ != "multi_agent"@,
        "name"@ != "reasoning"@,
        "name"@ != "service_tier"@,
        "name"@ != "text"@,
        "name"@ != "tools"@,
        "name"@ != "object"@,
        "name"@ != "created_at"@,
        "name"@ != "updated_at"@,
        "name"@ != "metadata"@,
        "name"@ != "effort"@,
        "name"@ != "summary"@,
        "multi_agent"@ != "reasoning"@,
        "multi_agent"@ != "service_tier"@,
        "multi_agent"@ != "text"@,
        "multi_agent"@ != "tools"@,
        "multi_agent"@ != "object"@,
        "multi_agent"@ != "created_at"@,
        "multi_agent"@ != "updated_at"@,
        "multi_agent"@ != "metadata"@,
        "multi_agent"@ != "effort"@,
        "multi_agent"@ != "summary"@,
        "reasoning"@ != "service_tier"@,
        "reasoning"@ != "text"@,
        "reasoning"@ != "tools"@,
        "reasoning"@ != "object"@,
        "reasoning"@ != "created_at"@,
        "reasoning"@ != "updated_at"@,
        "reasoning"@ != "metadata"@,
        "reasoning"@ != "effort"@,
        "reasoning"@ != "summary"@,
        "service_tier"@ != "text"@,
        "service_tier"@ != "tools"@,
        "service_tier"@ != "object"@,
        "service_tier"@ != "created_at"@,
        "service_tier"@ != "updated_at"@,
        "service_tier"@ != "metadata"@,
        "service_tier"@ != "effort"@,
        "service_tier"@ != "summary"@,
        "text"@ != "tools"@,
        "text"@ != "object"@,
        "text"@ != "created_at"@,
        "text"@ != "updated_at"@,
        "text"@ != "metadata"@,
        "text"@ != "effort"@,
        "text"@ != "summary"@,
        "tools"@ != "object"@,
        "tools"@ != "created_at"@,
        "tools"@ != "updated_at"@,
        "tools"@ != "metadata"@,
        "tools"@ != "effort"@,
        "tools"@ != "summary"@,
        "object"@ != "created_at"@,
        "object"@ != "updated_at"@,
        "object"@ != "metadata"@,
        "object"@ != "effort"@,
        "object"@ != "summary"@,
        "created_at"@ != "updated_at"@,
        "created_at"@ != "metadata"@,
        "created_at"@ != "effort"@,
        "created_at"@ != "summary"@,
        "updated_at"@ != "metadata"@,
        "updated_at"@ != "effort"@,
        "updated_at"@ != "summary"@,
        "metadata"@ != "effort"@,
        "metadata"@ != "summary"@,
        "effort"@ != "summary"@,
{
    reveal_strlit("id");
    reveal_strlit("model");
    reveal_strlit("instructions");
    reveal_strlit("name");
    reveal_strlit("multi_agent");
    reveal_strlit("reasoning");
    reveal_strlit("service_tier");
    reveal_strlit("text");
    reveal_strlit("tools");
    reveal_strlit("object");
    reveal_strlit("created_at");
    reveal_strlit("updated_at");
    reveal_strlit("metadata");
    reveal_strlit("effort");
    reveal_strlit("summary");
    assert("id"@.len() == 2);
    assert("model"@.len() == 5);
    assert("instructions"@.len() == 12);
    assert("name"@.len() == 4);
    assert("multi_agent"@.len() == 11);
    assert("reasoning"@.len() == 9);
    assert("service_tier"@.len() == 12);
    assert("text"@.len() == 4);
    assert("tools"@.len() == 5);
    assert("object"@.len() == 6);
    assert("created_at"@.len() == 10);
    assert("updated_at"@.len() == 10);
    assert("metadata"@.len() == 8);
    assert("effort"@.len() == 6);
    assert("summary"@.len() == 7);
    assert("model"@[0] != "tools"@[0]);
    assert("instructions"@[0] != "service_tier"@[0]);
    assert("name"@[0] != "text"@[0]);
    assert("object"@[0] != "effort"@[0]);
    assert("created_at"@[0] != "updated_at"@[0]);
}

/// The names of a function's fields differ.
pub proof fn lemma_tool_names()
    ensures
        "type"@ != "name"@,
        "type"@ != "description"@,
        "type"@ != "parameters"@,
        "type"@ != "defer_loading"@,
        "name"@ != "description"@,
        "name"@ != "parameters"@,
        "name"@ != "defer_loading"@,
        "description"@ != "parameters"@,
        "description"@ != "defer_loading"@,
        "parameters"@ != "defer_loading"@,
{
    reveal_strlit("type");
    reveal_strlit("name");
    reveal_strlit("description");
    reveal_strlit("parameters");
    reveal_strlit("defer_loading");
    assert("type"@.len() == 4);
    assert("name"@.len() == 4);
    assert("description"@.len() == 11);
    assert("parameters"@.len() == 10);
    assert("defer_loading"@.len() == 13);
    assert("type"@[0] != "name"@[0]);
}

/// The names of what a thread's policy says differ.
pub proof fn lemma_policy_names()
    ensures
        "mcp_servers"@ != "features.plugins"@,
        "mcp_servers"@ != "features.apps"@,
        "mcp_servers"@ != "features.enable_mcp_apps"@,
        "mcp_servers"@ != "web_search"@,
        "mcp_servers"@ != "agents.enabled"@,
        "mcp_servers"@ != "features.multi_agent_v2"@,
        "mcp_servers"@ != "tools.experimental_request_user_input.enabled"@,
        "mcp_servers"@ != "model_reasoning_effort"@,
        "mcp_servers"@ != "enabled"@,
        "mcp_servers"@ != "enabled_tools"@,
        "features.plugins"@ != "features.apps"@,
        "features.plugins"@ != "features.enable_mcp_apps"@,
        "features.plugins"@ != "web_search"@,
        "features.plugins"@ != "agents.enabled"@,
        "features.plugins"@ != "features.multi_agent_v2"@,
        "features.plugins"@ != "tools.experimental_request_user_input.enabled"@,
        "features.plugins"@ != "model_reasoning_effort"@,
        "features.plugins"@ != "enabled"@,
        "features.plugins"@ != "enabled_tools"@,
        "features.apps"@ != "features.enable_mcp_apps"@,
        "features.apps"@ != "web_search"@,
        "features.apps"@ != "agents.enabled"@,
        "features.apps"@ != "features.multi_agent_v2"@,
        "features.apps"@ != "tools.experimental_request_user_input.enabled"@,
        "features.apps"@ != "model_reasoning_effort"@,
        "features.apps"@ != "enabled"@,
        "features.apps"@ != "enabled_tools"@,
        "features.enable_mcp_apps"@ != "web_search"@,
        "features.enable_mcp_apps"@ != "agents.enabled"@,
        "features.enable_mcp_apps"@ != "features.multi_agent_v2"@,
        "features.enable_mcp_apps"@ != "tools.experimental_request_user_input.enabled"@,
        "features.enable_mcp_apps"@ != "model_reasoning_effort"@,
        "features.enable_mcp_apps"@ != "enabled"@,
        "features.enable_mcp_apps"@ != "enabled_tools"@,
        "web_search"@ != "agents.enabled"@,
        "web_search"@ != "features.multi_agent_v2"@,
        "web_search"@ != "tools.experimental_request_user_input.enabled"@,
        "web_search"@ != "model_reasoning_effort"@,
        "web_search"@ != "enabled"@,
        "web_search"@ != "enabled_tools"@,
        "agents.enabled"@ != "features.multi_agent_v2"@,
        "agents.enabled"@ != "tools.experimental_request_user_input.enabled"@,
        "agents.enabled"@ != "model_reasoning_effort"@,
        "agents.enabled"@ != "enabled"@,
        "agents.enabled"@ != "enabled_tools"@,
        "features.multi_agent_v2"@ != "tools.experimental_request_user_input.enabled"@,
        "features.multi_agent_v2"@ != "model_reasoning_effort"@,
        "features.multi_agent_v2"@ != "enabled"@,
        "features.multi_agent_v2"@ != "enabled_tools"@,
        "tools.experimental_request_user_input.enabled"@ != "model_reasoning_effort"@,
        "tools.experimental_request_user_input.enabled"@ != "enabled"@,
        "tools.experimental_request_user_input.enabled"@ != "enabled_tools"@,
        "model_reasoning_effort"@ != "enabled"@,
        "model_reasoning_effort"@ != "enabled_tools"@,
        "enabled"@ != "enabled_tools"@,
{
    reveal_strlit("mcp_servers");
    reveal_strlit("features.plugins");
    reveal_strlit("features.apps");
    reveal_strlit("features.enable_mcp_apps");
    reveal_strlit("web_search");
    reveal_strlit("agents.enabled");
    reveal_strlit("features.multi_agent_v2");
    reveal_strlit("tools.experimental_request_user_input.enabled");
    reveal_strlit("model_reasoning_effort");
    reveal_strlit("enabled");
    reveal_strlit("enabled_tools");
    assert("mcp_servers"@.len() == 11);
    assert("features.plugins"@.len() == 16);
    assert("features.apps"@.len() == 13);
    assert("features.enable_mcp_apps"@.len() == 24);
    assert("web_search"@.len() == 10);
    assert("agents.enabled"@.len() == 14);
    assert("features.multi_agent_v2"@.len() == 23);
    assert("tools.experimental_request_user_input.enabled"@.len() == 45);
    assert("model_reasoning_effort"@.len() == 22);
    assert("enabled"@.len() == 7);
    assert("enabled_tools"@.len() == 13);
    assert("features.apps"@[0] != "enabled_tools"@[0]);
}

/// The names of a page's fields differ.
pub proof fn lemma_page_names()
    ensures
        "object"@ != "first_id"@,
        "object"@ != "last_id"@,
        "object"@ != "data"@,
        "object"@ != "has_more"@,
        "object"@ != "nextCursor"@,
        "object"@ != "backwardsCursor"@,
        "first_id"@ != "last_id"@,
        "first_id"@ != "data"@,
        "first_id"@ != "has_more"@,
        "first_id"@ != "nextCursor"@,
        "first_id"@ != "backwardsCursor"@,
        "last_id"@ != "data"@,
        "last_id"@ != "has_more"@,
        "last_id"@ != "nextCursor"@,
        "last_id"@ != "backwardsCursor"@,
        "data"@ != "has_more"@,
        "data"@ != "nextCursor"@,
        "data"@ != "backwardsCursor"@,
        "has_more"@ != "nextCursor"@,
        "has_more"@ != "backwardsCursor"@,
        "nextCursor"@ != "backwardsCursor"@,
{
    reveal_strlit("object");
    reveal_strlit("first_id");
    reveal_strlit("last_id");
    reveal_strlit("data");
    reveal_strlit("has_more");
    reveal_strlit("nextCursor");
    reveal_strlit("backwardsCursor");
    assert("object"@.len() == 6);
    assert("first_id"@.len() == 8);
    assert("last_id"@.len() == 7);
    assert("data"@.len() == 4);
    assert("has_more"@.len() == 8);
    assert("nextCursor"@.len() == 10);
    assert("backwardsCursor"@.len() == 15);
    assert("first_id"@[0] != "has_more"@[0]);
}

/// The names of an error's fields differ.
pub proof fn lemma_failure_names()
    ensures
        "message"@ != "type"@,
        "message"@ != "param"@,
        "message"@ != "code"@,
        "type"@ != "param"@,
        "type"@ != "code"@,
        "param"@ != "code"@,
{
    reveal_strlit("message");
    reveal_strlit("type");
    reveal_strlit("param");
    reveal_strlit("code");
    assert("message"@.len() == 7);
    assert("type"@.len() == 4);
    assert("param"@.len() == 5);
    assert("code"@.len() == 4);
    assert("type"@[0] != "code"@[0]);
}

} // verus!
