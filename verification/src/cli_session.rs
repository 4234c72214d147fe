//! The interactive CLI session: reading a conversation handed in as JSON into
//! the transcript, and what one line typed at the prompt asks for.

use vstd::prelude::*;
use crate::protocol::{QuestionOption, SingleAnswer, UserAnswer};
use crate::text::{chars_of, concat_str, decimal, decimal_spec, eq_str, starts_with_spec, starts_with_str, string_of, strings_view, trim, trim_spec};

verus! {

/// One message of a conversation handed to `heb` as JSON.
#[derive(Debug, PartialEq, Eq)]
pub struct ConvoMessage {
    pub role: String,
    pub content: String,
}

/// A conversation handed to `heb` as JSON.
#[derive(Debug, PartialEq, Eq)]
pub struct ConvoInput {
    pub messages: Vec<ConvoMessage>,
}

/// Who wrote a message replayed into the transcript.
#[derive(Debug, Clone, Copy, PartialEq, Eq, Structural)]
pub enum TurnRole {
    User,
    Assistant,
}

/// The transcript a conversation turns into: the replayed messages, the
/// system prompt, and the user message that starts the new turn.
#[derive(Debug, PartialEq, Eq)]
pub struct HistoryPlan {
    pub turns: Vec<(TurnRole, String)>,
    pub system: Option<String>,
    pub last_user: String,
}

/// The system prompt after a `system` message: its text, appended after a
/// blank line when there already is one.
pub open spec fn add_system(cur: Option<Seq<char>>, content: Seq<char>) -> Option<Seq<char>> {
    match cur {
        Some(c) => if c.len() == 0 { Some(content) } else { Some(c + "\n\n"@ + content) },
        None => Some(content),
    }
}

/// The replayed turns and system prompt after the first `n` messages, or the
/// role of the first message that is none of user, assistant, system.
pub open spec fn replay(msgs: Seq<ConvoMessage>, n: int, system: Option<Seq<char>>) -> Result<(Seq<(TurnRole, Seq<char>)>, Option<Seq<char>>), Seq<char>>
    decreases n,
{
    if n <= 0 {
        Ok((Seq::empty(), system))
    } else {
        match replay(msgs, n - 1, system) {
            Err(e) => Err(e),
            Ok((turns, sys)) => {
                let m = msgs[n - 1];
                if m.role@ == "user"@ {
                    Ok((turns.push((TurnRole::User, m.content@)), sys))
                } else if m.role@ == "assistant"@ {
                    Ok((turns.push((TurnRole::Assistant, m.content@)), sys))
                } else if m.role@ == "system"@ {
                    Ok((turns, add_system(sys, m.content@)))
                } else {
                    Err(m.role@)
                }
            },
        }
    }
}

pub open spec fn opt_view(o: Option<String>) -> Option<Seq<char>> {
    match o {
        Some(s) => Some(s@),
        None => None,
    }
}

pub open spec fn turns_view(t: Seq<(TurnRole, String)>) -> Seq<(TurnRole, Seq<char>)> {
    t.map_values(|p: (TurnRole, String)| (p.0, p.1@))
}

/// What `heb --messages` makes of a conversation: it must end with a user
/// message, which starts the turn; the messages before it are replayed.
pub open spec fn plan_spec(msgs: Seq<ConvoMessage>, system: Option<Seq<char>>) -> Result<(Seq<(TurnRole, Seq<char>)>, Option<Seq<char>>, Seq<char>), Seq<char>> {
    if msgs.len() == 0 {
        Err("messages 为空"@)
    } else if msgs.last().role@ != "user"@ {
        Err("messages 最后一条必须是 user，实际为 "@ + msgs.last().role@)
    } else {
        match replay(msgs, msgs.len() - 1, system) {
            Err(role) => Err("不支持的 role: "@ + role),
            Ok((turns, sys)) => Ok((turns, sys, msgs.last().content@)),
        }
    }
}

/// Reads a conversation into the transcript whose system prompt is `system`.
pub open spec fn plan_view(r: Result<HistoryPlan, String>) -> Result<(Seq<(TurnRole, Seq<char>)>, Option<Seq<char>>, Seq<char>), Seq<char>> {
    match r {
        Ok(p) => Ok((turns_view(p.turns@), opt_view(p.system), p.last_user@)),
        Err(e) => Err(e@),
    }
}

pub fn plan_history(messages: Vec<ConvoMessage>, system: Option<String>) -> (r: Result<HistoryPlan, String>)
    ensures
        plan_view(r) == plan_spec(messages@, opt_view(system)),
{
    let ghost msgs = messages@;
    let ghost sys0 = opt_view(system);
    let n = messages.len();
    if n == 0 {
        return Err("messages 为空".to_string());
    }
    let lr = chars_of(messages[n - 1].role.as_str());
    if !eq_str(&lr, "user") {
        return Err(concat_str("messages 最后一条必须是 user，实际为 ", messages[n - 1].role.as_str()));
    }
    let mut turns: Vec<(TurnRole, String)> = Vec::new();
    let mut sys = system;
    let mut i: usize = 0;
    assert(turns_view(turns@) =~= Seq::<(TurnRole, Seq<char>)>::empty());
    while i + 1 < n
        invariant
            n == messages.len(),
            msgs == messages@,
            n >= 1,
            i + 1 <= n,
            msgs.last().role@ == "user"@,
            sys0 == opt_view(system),
            replay(msgs, i as int, sys0) == Ok::<_, Seq<char>>((turns_view(turns@), opt_view(sys))),
        decreases n - i,
    {
        let m = &messages[i];
        let rv = chars_of(m.role.as_str());
        if eq_str(&rv, "user") {
            let ghost before = turns@;
            turns.push((TurnRole::User, m.content.clone()));
            assert(turns_view(turns@) =~= turns_view(before).push((TurnRole::User, m.content@)));
        } else if eq_str(&rv, "assistant") {
            let ghost before = turns@;
            turns.push((TurnRole::Assistant, m.content.clone()));
            assert(turns_view(turns@) =~= turns_view(before).push((TurnRole::Assistant, m.content@)));
        } else if eq_str(&rv, "system") {
            let next = match &sys {
                Some(cur) => if cur.as_str().is_empty() {
                    m.content.clone()
                } else {
                    let a = concat_str(cur.as_str(), "\n\n");
                    concat_str(a.as_str(), m.content.as_str())
                },
                None => m.content.clone(),
            };
            sys = Some(next);
        } else {
            proof {
                assert(msgs[i as int] == *m);
                assert(replay(msgs, i as int + 1, sys0) == Err::<(Seq<(TurnRole, Seq<char>)>, Option<Seq<char>>), Seq<char>>(m.role@));
                lemma_replay_err_sticks(msgs, i as int + 1, n as int - 1, sys0);
            }
            return Err(concat_str("不支持的 role: ", m.role.as_str()));
        }
        i += 1;
    }
    let last_user = messages[n - 1].content.clone();
    Ok(HistoryPlan { turns, system: sys, last_user })
}

/// An error in the replay stays the error of every longer replay.
proof fn lemma_replay_err_sticks(msgs: Seq<ConvoMessage>, a: int, b: int, system: Option<Seq<char>>)
    requires
        1 <= a <= b,
        replay(msgs, a, system) is Err,
    ensures
        replay(msgs, b, system) == replay(msgs, a, system),
    decreases b - a,
{
    if a < b {
        lemma_replay_err_sticks(msgs, a, b - 1, system);
    }
}

/// What a line typed at the `›` prompt asks for.
#[derive(Debug, PartialEq, Eq)]
pub enum ReplInput {
    /// A blank line: ask again.
    Blank,
    /// `/exit`, `/quit` or `/q`.
    Exit,
    /// `/compact`, with the trimmed rest of the line as extra instructions.
    Compact { instructions: String },
    /// Anything else is sent, untrimmed, as the next user message.
    Turn,
}

/// Sorts a line typed at the prompt.
pub fn classify_repl_line(line: &str) -> (r: ReplInput)
    ensures
        trim_spec(line@).len() == 0 ==> r is Blank,
        trim_spec(line@).len() != 0 && (trim_spec(line@) == "/exit"@ || trim_spec(line@) == "/quit"@ || trim_spec(line@) == "/q"@) ==> r is Exit,
        trim_spec(line@).len() != 0 && !(trim_spec(line@) == "/exit"@ || trim_spec(line@) == "/quit"@ || trim_spec(line@) == "/q"@)
            && starts_with_spec(trim_spec(line@), "/compact"@) ==> (r matches ReplInput::Compact { instructions }
            && instructions@ == trim_spec(trim_spec(line@).subrange(8, trim_spec(line@).len() as int))),
        trim_spec(line@).len() != 0 && !(trim_spec(line@) == "/exit"@ || trim_spec(line@) == "/quit"@ || trim_spec(line@) == "/q"@)
            && !starts_with_spec(trim_spec(line@), "/compact"@) ==> r is Turn,
{
    let t = trim(line);
    let tv = chars_of(t.as_str());
    if tv.len() == 0 {
        return ReplInput::Blank;
    }
    if eq_str(&tv, "/exit") || eq_str(&tv, "/quit") || eq_str(&tv, "/q") {
        return ReplInput::Exit;
    }
    if starts_with_str(&tv, "/compact") {
        proof {
            reveal_strlit("/compact");
        }
        let mut rest: Vec<char> = Vec::new();
        let mut k: usize = 8;
        while k < tv.len()
            invariant
                8 <= k <= tv.len(),
                rest@ == tv@.subrange(8, k as int),
            decreases tv.len() - k,
        {
            rest.push(tv[k]);
            k += 1;
        }
        let rs = string_of(&rest);
        let instructions = trim(rs.as_str());
        return ReplInput::Compact { instructions };
    }
    ReplInput::Turn
}

/// How urgently the prompt shows the context use: red from 90 %, yellow from 70 %.
#[derive(Debug, Clone, Copy, PartialEq, Eq, Structural)]
pub enum UsageLevel {
    Calm,
    Warn,
    Critical,
}

pub fn usage_level(pct: u32) -> (l: UsageLevel)
    ensures
        l == (if pct >= 90 { UsageLevel::Critical } else if pct >= 70 { UsageLevel::Warn } else { UsageLevel::Calm }),
{
    if pct >= 90 {
        UsageLevel::Critical
    } else if pct >= 70 {
        UsageLevel::Warn
    } else {
        UsageLevel::Calm
    }
}

/// The extra instructions a compaction is given: none when blank.
pub fn compact_instructions(args: &str) -> (r: Option<&str>)
    ensures
        args@.len() == 0 ==> r is None,
        args@.len() != 0 ==> r == Some(args),
{
    if args.is_empty() { None } else { Some(args) }
}

/// How an option is listed when a question is asked in the terminal:
/// `<n>. <label>`, then ` — <description>` when it has one.
pub open spec fn option_item(n: nat, o: QuestionOption) -> Seq<char> {
    decimal_spec(n) + ". "@ + o.label@ + (if o.description@.len() == 0 { Seq::empty() } else { " — "@ + o.description@ })
}

pub fn option_display_items(options: &Vec<QuestionOption>) -> (items: Vec<String>)
    requires
        options.len() < u64::MAX,
    ensures
        items.len() == options.len(),
        forall|i: int| 0 <= i < options.len() ==> #[trigger] items@[i]@ == option_item((i + 1) as nat, options@[i]),
{
    let mut items: Vec<String> = Vec::new();
    let mut i: usize = 0;
    while i < options.len()
        invariant
            i <= options.len(),
            options.len() < u64::MAX,
            items.len() == i,
            forall|j: int| 0 <= j < i ==> #[trigger] items@[j]@ == option_item((j + 1) as nat, options@[j]),
        decreases options.len() - i,
    {
        let o = &options[i];
        let n = decimal((i + 1) as u64);
        let a = concat_str(n.as_str(), ". ");
        let b = concat_str(a.as_str(), o.label.as_str());
        let item = if o.description.as_str().is_empty() {
            assert(b@ + Seq::<char>::empty() =~= b@);
            b
        } else {
            let c = concat_str(b.as_str(), " — ");
            concat_str(c.as_str(), o.description.as_str())
        };
        items.push(item);
        i += 1;
    }
    items
}

/// The first position of `x` in `s`.
pub open spec fn position_of(s: Seq<Seq<char>>, x: Seq<char>) -> Option<int> {
    if exists|i: int| 0 <= i < s.len() && s[i] == x {
        Some(choose|i: int| 0 <= i < s.len() && s[i] == x && forall|j: int| 0 <= j < i ==> s[j] != x)
    } else {
        None
    }
}

fn find_position(s: &Vec<String>, x: &str) -> (r: Option<usize>)
    ensures
        match r {
            Some(i) => position_of(strings_view(s@), x@) == Some(i as int) && i < s.len(),
            None => position_of(strings_view(s@), x@) is None,
        },
{
    let mut i: usize = 0;
    while i < s.len()
        invariant
            i <= s.len(),
            forall|j: int| 0 <= j < i ==> s@[j]@ != x@,
        decreases s.len() - i,
    {
        let v = chars_of(s[i].as_str());
        if eq_str(&v, x) {
            proof {
                let sv = strings_view(s@);
                assert(sv[i as int] == x@);
                let c = choose|c: int| 0 <= c < sv.len() && sv[c] == x@ && forall|j: int| 0 <= j < c ==> sv[j] != x@;
                if c < i {
                    assert(sv[c] == s@[c]@);
                } else if c > i {
                    assert(sv[i as int] != x@);
                }
            }
            return Some(i);
        }
        i += 1;
    }
    proof {
        let sv = strings_view(s@);
        assert forall|j: int| 0 <= j < sv.len() implies sv[j] != x@ by {
            assert(sv[j] == s@[j]@);
        }
    }
    None
}

/// The label of the listed item `choice`: the label at its position when
/// there is one, else the choice itself.
pub open spec fn label_of_choice(items: Seq<Seq<char>>, labels: Seq<Seq<char>>, choice: Seq<char>) -> Option<Seq<char>> {
    match position_of(items, choice) {
        Some(i) => if i < labels.len() { Some(labels[i]) } else { None },
        None => None,
    }
}

/// The answer of a multiple choice in the terminal: the labels of the picked
/// items (in the order picked); cancelled when none is picked.
pub open spec fn picked_labels(items: Seq<Seq<char>>, labels: Seq<Seq<char>>, choices: Seq<Seq<char>>) -> Seq<Seq<char>>
    decreases choices.len(),
{
    if choices.len() == 0 {
        Seq::empty()
    } else {
        let prev = picked_labels(items, labels, choices.drop_last());
        match label_of_choice(items, labels, choices.last()) {
            Some(l) => prev.push(l),
            None => prev,
        }
    }
}

pub fn multi_select_answer(items: &Vec<String>, labels: &Vec<String>, choices: &Vec<String>) -> (a: UserAnswer)
    ensures
        picked_labels(strings_view(items@), strings_view(labels@), strings_view(choices@)).len() == 0 ==> a is Cancelled,
        picked_labels(strings_view(items@), strings_view(labels@), strings_view(choices@)).len() > 0
            ==> (a matches UserAnswer::SelectedMulti { labels: l } && strings_view(l@) == picked_labels(strings_view(items@), strings_view(labels@), strings_view(choices@))),
{
    let mut picked: Vec<String> = Vec::new();
    let mut k: usize = 0;
    while k < choices.len()
        invariant
            k <= choices.len(),
            strings_view(picked@) == picked_labels(strings_view(items@), strings_view(labels@), strings_view(choices@).subrange(0, k as int)),
        decreases choices.len() - k,
    {
        proof {
            let cs = strings_view(choices@).subrange(0, k + 1);
            assert(cs.drop_last() =~= strings_view(choices@).subrange(0, k as int));
            assert(cs.last() == choices@[k as int]@);
        }
        match find_position(items, choices[k].as_str()) {
            Some(idx) => if idx < labels.len() {
                let ghost before = strings_view(picked@);
                picked.push(labels[idx].clone());
                assert(strings_view(picked@) =~= before.push(labels@[idx as int]@));
            },
            None => {},
        }
        k += 1;
    }
    assert(strings_view(choices@).subrange(0, choices.len() as int) =~= strings_view(choices@));
    if picked.len() == 0 {
        UserAnswer::Cancelled
    } else {
        UserAnswer::SelectedMulti { labels: picked }
    }
}

/// The extra item of a single choice that asks for free text.
pub open spec fn other_label() -> Seq<char> {
    "其他（自由输入）"@
}

/// What picking `choice` in a single choice leads to.
#[derive(Debug, PartialEq, Eq)]
pub enum SingleChoice {
    /// Ask for free text next.
    AskText,
    Answer(UserAnswer),
}

/// Picking `choice` among the listed items (and the free-text item): the
/// free-text item asks for text; a listed item answers with its label.
pub fn single_select_answer(items: &Vec<String>, labels: &Vec<String>, choice: &str) -> (c: SingleChoice)
    ensures
        choice@ == other_label() ==> c is AskText,
        choice@ != other_label() ==> (c matches SingleChoice::Answer(UserAnswer::Selected { label })
            && label@ == match label_of_choice(strings_view(items@), strings_view(labels@), choice@) {
                Some(l) => l,
                None => choice@,
            }),
{
    let cv = chars_of(choice);
    if eq_str(&cv, "其他（自由输入）") {
        return SingleChoice::AskText;
    }
    let label = match find_position(items, choice) {
        Some(idx) => if idx < labels.len() { labels[idx].clone() } else { choice.to_string() },
        None => choice.to_string(),
    };
    SingleChoice::Answer(UserAnswer::Selected { label })
}

/// The free-text answer: cancelled when nothing (or only blanks) was typed.
pub fn text_answer(text: Option<String>) -> (a: UserAnswer)
    ensures
        match text {
            Some(t) => if trim_spec(t@).len() > 0 { a == (UserAnswer::Custom { text: t }) } else { a is Cancelled },
            None => a is Cancelled,
        },
{
    match text {
        Some(t) => {
            let tt = trim(t.as_str());
            if tt.as_str().is_empty() { UserAnswer::Cancelled } else { UserAnswer::Custom { text: t } }
        },
        None => UserAnswer::Cancelled,
    }
}

/// One question's answer inside a request of several: `None` when it was
/// cancelled, which cancels the whole request.
pub fn single_answer(a: UserAnswer) -> (r: Option<SingleAnswer>)
    ensures
        match a {
            UserAnswer::Selected { label } => r == Some(SingleAnswer::Selected { label }),
            UserAnswer::SelectedMulti { labels } => r == Some(SingleAnswer::SelectedMulti { labels }),
            UserAnswer::Custom { text } => r == Some(SingleAnswer::Custom { text }),
            UserAnswer::Cancelled => r is None,
            UserAnswer::Multi { .. } => r == Some(SingleAnswer::Cancelled),
        },
{
    match a {
        UserAnswer::Selected { label } => Some(SingleAnswer::Selected { label }),
        UserAnswer::SelectedMulti { labels } => Some(SingleAnswer::SelectedMulti { labels }),
        UserAnswer::Custom { text } => Some(SingleAnswer::Custom { text }),
        UserAnswer::Cancelled => None,
        UserAnswer::Multi { .. } => Some(SingleAnswer::Cancelled),
    }
}

} // verus!

