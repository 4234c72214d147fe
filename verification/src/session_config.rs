//! Changing a conversation's settings from the desktop app: the per-field
//! update, and the rules for switching to another provider or model.

use vstd::prelude::*;
use crate::messages::{Message, Role};
use crate::text::concat_str;

verus! {

/// The reasoning options of a conversation (`effort` names the level).
#[derive(Debug, PartialEq, Eq)]
pub struct ReasoningConfig {
    pub enabled: Option<bool>,
    pub effort: Option<String>,
    pub long_context: Option<bool>,
}

/// The settings of a conversation that the app can change.
#[derive(Debug, PartialEq, Eq)]
pub struct SessionSettings {
    pub provider_id: String,
    pub model: String,
    pub system_prompt: Option<String>,
    pub prompt_id: Option<String>,
    pub stream: bool,
    pub reasoning: Option<ReasoningConfig>,
}

/// A requested change; `None` leaves a field as it is.
#[derive(Debug, PartialEq, Eq)]
pub struct SettingsUpdate {
    pub provider_id: Option<String>,
    pub model: Option<String>,
    pub system_prompt: Option<String>,
    pub prompt_id: Option<String>,
    pub stream: Option<bool>,
    pub reasoning: Option<ReasoningConfig>,
    pub clear_reasoning: Option<bool>,
}

pub open spec fn opt_str(o: Option<String>) -> Option<Seq<char>> {
    match o {
        Some(s) => Some(s@),
        None => None,
    }
}

pub open spec fn reasoning_view(r: Option<ReasoningConfig>) -> Option<(Option<bool>, Option<Seq<char>>, Option<bool>)> {
    match r {
        Some(c) => Some((c.enabled, opt_str(c.effort), c.long_context)),
        None => None,
    }
}

pub open spec fn settings_view(s: SessionSettings) -> (Seq<char>, Seq<char>, Option<Seq<char>>, Option<Seq<char>>, bool, Option<(Option<bool>, Option<Seq<char>>, Option<bool>)>) {
    (s.provider_id@, s.model@, opt_str(s.system_prompt), opt_str(s.prompt_id), s.stream, reasoning_view(s.reasoning))
}

/// An optional text field set from the app: an empty text clears it.
pub open spec fn cleared_if_empty(v: Seq<char>) -> Option<Seq<char>> {
    if v.len() == 0 { None } else { Some(v) }
}

/// The settings after `u`: each given field replaces the old one (an empty
/// system prompt or prompt id clears it); a given reasoning replaces the old
/// one, else `clear_reasoning` clears it.
pub open spec fn updated_spec(s: SessionSettings, u: SettingsUpdate) -> (Seq<char>, Seq<char>, Option<Seq<char>>, Option<Seq<char>>, bool, Option<(Option<bool>, Option<Seq<char>>, Option<bool>)>) {
    (
        match u.provider_id { Some(p) => p@, None => s.provider_id@ },
        match u.model { Some(m) => m@, None => s.model@ },
        match u.system_prompt { Some(p) => cleared_if_empty(p@), None => opt_str(s.system_prompt) },
        match u.prompt_id { Some(p) => cleared_if_empty(p@), None => opt_str(s.prompt_id) },
        match u.stream { Some(b) => b, None => s.stream },
        match u.reasoning {
            Some(r) => reasoning_view(Some(r)),
            None => if u.clear_reasoning == Some(true) { None } else { reasoning_view(s.reasoning) },
        },
    )
}

fn same_opt_str(a: &Option<String>, b: &Option<String>) -> (r: bool)
    ensures
        r == (opt_str(*a) == opt_str(*b)),
{
    match (a, b) {
        (Some(x), Some(y)) => {
            let xv = crate::text::chars_of(x.as_str());
            crate::text::eq_str(&xv, y.as_str())
        },
        (None, None) => true,
        _ => false,
    }
}

/// Whether two reasoning settings are the same.
pub fn same_reasoning(a: &Option<ReasoningConfig>, b: &Option<ReasoningConfig>) -> (r: bool)
    ensures
        r == (reasoning_view(*a) == reasoning_view(*b)),
{
    match (a, b) {
        (Some(x), Some(y)) => x.enabled == y.enabled && x.long_context == y.long_context && same_opt_str(&x.effort, &y.effort),
        (None, None) => true,
        _ => false,
    }
}

fn text_or_none(v: String) -> (r: Option<String>)
    ensures
        opt_str(r) == cleared_if_empty(v@),
{
    if v.as_str().is_empty() { None } else { Some(v) }
}

/// Applies `u` to `s`; also says whether the reasoning setting changed (the
/// conversation then gets a marker where the new setting starts).
pub fn update_session_config(s: SessionSettings, u: SettingsUpdate) -> (r: (SessionSettings, bool))
    ensures
        settings_view(r.0) == updated_spec(s, u),
        r.1 == (reasoning_view(s.reasoning) != reasoning_view(r.0.reasoning)),
{
    let SessionSettings { provider_id, model, system_prompt, prompt_id, stream, reasoning } = s;
    let provider_id = match u.provider_id { Some(p) => p, None => provider_id };
    let model = match u.model { Some(m) => m, None => model };
    let system_prompt = match u.system_prompt { Some(p) => text_or_none(p), None => system_prompt };
    let prompt_id = match u.prompt_id { Some(p) => text_or_none(p), None => prompt_id };
    let stream = match u.stream { Some(b) => b, None => stream };
    let clear = match u.clear_reasoning { Some(c) => c, None => false };
    let (new_reasoning, changed) = match u.reasoning {
        Some(r) => {
            let nr = Some(r);
            let same = same_reasoning(&reasoning, &nr);
            (nr, !same)
        },
        None => if clear {
            let was_some = reasoning.is_some();
            (None, was_some)
        } else {
            (reasoning, false)
        },
    };
    (SessionSettings { provider_id, model, system_prompt, prompt_id, stream, reasoning: new_reasoning }, changed)
}

/// How much of the model's context window a conversation uses.
#[derive(Debug, PartialEq, Eq)]
pub struct ContextUsageDto {
    pub used_tokens: usize,
    pub budget_tokens: usize,
}

/// What the app knows of a configured provider.
#[derive(Debug, PartialEq, Eq)]
pub struct ProviderInfo {
    pub name: String,
    pub is_deepseek: bool,
}

/// The marker recorded where a conversation switches provider or model.
#[derive(Debug, PartialEq, Eq)]
pub struct SwitchMarker {
    pub from_provider: String,
    pub from_model: String,
    pub to_provider: String,
    pub to_model: String,
}

/// What a switch request comes to.
#[derive(Debug, PartialEq, Eq)]
pub enum SwitchPlan {
    /// Same provider and model: nothing to do.
    Unchanged,
    /// Refused, with the reason shown to the user.
    Refused { reason: String },
    /// Record `marker`, then switch and set the reasoning to `reasoning`.
    Switch { marker: SwitchMarker, reasoning: Option<ReasoningConfig> },
}

/// The reasoning a conversation gets on a model that supports it, when it had none.
pub open spec fn default_reasoning_view() -> Option<(Option<bool>, Option<Seq<char>>, Option<bool>)> {
    Some((Some(true), Some("extra"@), None))
}

pub open spec fn has_real_turn(msgs: Seq<Message>) -> bool {
    exists|i: int| 0 <= i < msgs.len() && (msgs[i].role == Role::User || msgs[i].role == Role::Assistant)
}

/// A provider's display name: its name when it is configured, else its id.
pub open spec fn display_name(id: Seq<char>, p: Option<ProviderInfo>) -> Seq<char> {
    match p {
        Some(i) => i.name@,
        None => id,
    }
}

pub open spec fn deepseek_lock_spec(messages: Seq<Message>, cur: Option<ProviderInfo>, new: Option<ProviderInfo>) -> bool {
    has_real_turn(messages) && cur is Some && new is Some && cur->0.is_deepseek != new->0.is_deepseek
}

fn any_real_turn(messages: &[Message]) -> (b: bool)
    ensures
        b == has_real_turn(messages@),
{
    let mut i: usize = 0;
    while i < messages.len()
        invariant
            i <= messages.len(),
            forall|j: int| 0 <= j < i ==> !(messages@[j].role == Role::User || messages@[j].role == Role::Assistant),
        decreases messages.len() - i,
    {
        if messages[i].role == Role::User || messages[i].role == Role::Assistant {
            return true;
        }
        i += 1;
    }
    false
}

/// Plans switching the conversation from `cur_provider_id`/`cur_model` to
/// `new_provider_id`/`new_model`. Once the conversation has a user or
/// assistant message, DeepSeek and other families cannot be switched between
/// (their histories do not carry over). A switch keeps the reasoning on a
/// model that supports it (turning it on with extra effort when it was unset),
/// and drops it on one that does not.
pub fn plan_model_switch(
    cur_provider_id: &str,
    cur_model: &str,
    cur_reasoning: Option<ReasoningConfig>,
    messages: &[Message],
    cur_provider: Option<ProviderInfo>,
    new_provider_id: &str,
    new_provider: Option<ProviderInfo>,
    new_model: &str,
    supports_reasoning: bool,
) -> (p: SwitchPlan)
    ensures
        cur_provider_id@ == new_provider_id@ && cur_model@ == new_model@ ==> p is Unchanged,
        !(cur_provider_id@ == new_provider_id@ && cur_model@ == new_model@) && deepseek_lock_spec(messages@, cur_provider, new_provider)
            ==> (p matches SwitchPlan::Refused { reason } && reason@ == "本会话已锁定模型系列：DeepSeek 与其他模型之间不可互相切换，请新建会话。"@),
        !(cur_provider_id@ == new_provider_id@ && cur_model@ == new_model@) && !deepseek_lock_spec(messages@, cur_provider, new_provider)
            ==> (p matches SwitchPlan::Switch { marker, reasoning }
                && marker.from_provider@ == display_name(cur_provider_id@, cur_provider)
                && marker.from_model@ == cur_model@
                && marker.to_provider@ == display_name(new_provider_id@, new_provider)
                && marker.to_model@ == new_model@
                && reasoning_view(reasoning) == (if !supports_reasoning { None } else if cur_reasoning is None { default_reasoning_view() } else { reasoning_view(cur_reasoning) })),
{
    let cpv = crate::text::chars_of(cur_provider_id);
    let cmv = crate::text::chars_of(cur_model);
    if crate::text::eq_str(&cpv, new_provider_id) && crate::text::eq_str(&cmv, new_model) {
        return SwitchPlan::Unchanged;
    }
    let talked = any_real_turn(messages);
    if talked {
        match (&cur_provider, &new_provider) {
            (Some(c), Some(n)) => {
                if c.is_deepseek != n.is_deepseek {
                    return SwitchPlan::Refused {
                        reason: "本会话已锁定模型系列：DeepSeek 与其他模型之间不可互相切换，请新建会话。".to_string(),
                    };
                }
            },
            _ => {},
        }
    }
    let from_provider = match cur_provider {
        Some(c) => c.name,
        None => cur_provider_id.to_string(),
    };
    let to_provider = match new_provider {
        Some(n) => n.name,
        None => new_provider_id.to_string(),
    };
    let reasoning = if supports_reasoning {
        match cur_reasoning {
            Some(r) => Some(r),
            None => Some(ReasoningConfig { enabled: Some(true), effort: Some("extra".to_string()), long_context: None }),
        }
    } else {
        None
    };
    let marker = SwitchMarker {
        from_provider,
        from_model: cur_model.to_string(),
        to_provider,
        to_model: new_model.to_string(),
    };
    SwitchPlan::Switch { marker, reasoning }
}

} // verus!
