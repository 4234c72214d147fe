//! The decisions and answers exchanged with the agent core about approvals and
//! questions.

use vstd::prelude::*;

verus! {

/// How far a remembered approval reaches.
#[derive(Debug, Clone, Copy, PartialEq, Eq, Structural)]
pub enum PermissionScope {
    Once,
    Session,
    Project,
    Global,
}

/// The user's verdict on an approval request.
#[derive(Debug, PartialEq, Eq)]
pub enum ApprovalDecision {
    AllowOnce,
    AllowAndRemember { scope: PermissionScope, pattern: Option<String>, extra_patterns: Vec<String> },
    Deny,
    DenyWithFeedback { feedback: String },
}

/// The user's answer to a question from the agent.
#[derive(Debug, PartialEq, Eq)]
pub enum UserAnswer {
    Selected { label: String },
    SelectedMulti { labels: Vec<String> },
    Custom { text: String },
    Cancelled,
    /// The answers to a request of several questions, one per question.
    Multi { items: Vec<MultiQuestionAnswer> },
}

/// The answer to one question of several.
#[derive(Debug, PartialEq, Eq)]
pub enum SingleAnswer {
    Selected { label: String },
    SelectedMulti { labels: Vec<String> },
    Custom { text: String },
    Cancelled,
}

/// One question of several, by its title, with its answer.
#[derive(Debug, PartialEq, Eq)]
pub struct MultiQuestionAnswer {
    pub title: String,
    pub answer: SingleAnswer,
}

/// One option of a question.
#[derive(Debug, PartialEq, Eq)]
pub struct QuestionOption {
    pub label: String,
    pub description: String,
}

/// One sub-question of a multi-question request.
#[derive(Debug, PartialEq, Eq)]
pub struct AskQuestion {
    pub title: String,
    pub description: String,
    pub options: Vec<QuestionOption>,
    pub multi: bool,
}

} // verus!
