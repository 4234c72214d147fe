//! The to-do list and plan comments of a conversation, as the app hands them
//! to the front end.

use vstd::prelude::*;

verus! {

/// Where a to-do item stands.
#[derive(Debug, Clone, Copy, PartialEq, Eq, Structural)]
pub enum TodoStatus {
    Pending,
    InProgress,
    Completed,
}

/// A to-do item the agent keeps.
#[derive(Debug, PartialEq, Eq)]
pub struct TodoItem {
    pub id: String,
    pub content: String,
    pub active_form: String,
    pub status: TodoStatus,
}

/// A to-do item for the front end: the status by name.
#[derive(Debug, PartialEq, Eq)]
pub struct TodoItemDto {
    pub id: String,
    pub content: String,
    pub active_form: String,
    pub status: String,
}

pub open spec fn status_name(s: TodoStatus) -> Seq<char> {
    match s {
        TodoStatus::Pending => "pending"@,
        TodoStatus::InProgress => "in_progress"@,
        TodoStatus::Completed => "completed"@,
    }
}

impl TodoItemDto {
    pub fn from_item(t: TodoItem) -> (d: TodoItemDto)
        ensures
            d.id == t.id && d.content == t.content && d.active_form == t.active_form,
            d.status@ == status_name(t.status),
    {
        let status = match t.status {
            TodoStatus::Pending => "pending".to_string(),
            TodoStatus::InProgress => "in_progress".to_string(),
            TodoStatus::Completed => "completed".to_string(),
        };
        TodoItemDto { id: t.id, content: t.content, active_form: t.active_form, status }
    }
}

/// A comment on a plan, anchored at a place in it.
#[derive(Debug, PartialEq, Eq)]
pub struct PlanComment {
    pub id: String,
    pub plan_id: String,
    pub anchor: String,
    pub body: String,
    pub created_at_ms: i64,
    pub consumed: bool,
}

/// A plan comment for the front end.
#[derive(Debug, PartialEq, Eq)]
pub struct PlanCommentDto {
    pub id: String,
    pub plan_id: String,
    pub anchor: String,
    pub body: String,
    pub created_at_ms: i64,
    pub consumed: bool,
}

impl PlanCommentDto {
    pub fn from_comment(c: PlanComment) -> (d: PlanCommentDto)
        ensures
            d.id == c.id && d.plan_id == c.plan_id && d.anchor == c.anchor && d.body == c.body,
            d.created_at_ms == c.created_at_ms && d.consumed == c.consumed,
    {
        PlanCommentDto { id: c.id, plan_id: c.plan_id, anchor: c.anchor, body: c.body, created_at_ms: c.created_at_ms, consumed: c.consumed }
    }
}

} // verus!
