use hebbian::hitl::{island_decision, parse_island_answer, HitlState};
use hebbian::island::{
    approval_card_body, island_reply_target, push_engine_event_to_island, IslandAction, IslandCard,
    IslandEvent, IslandReplyTarget,
    ToolInputFields,
};
use hebbian::protocol::{
    ApprovalDecision, MultiQuestionAnswer, PermissionScope, QuestionOption, SingleAnswer, UserAnswer,
};

#[test]
fn island_skip_is_cancelled() {
    let ans = parse_island_answer("skip", None).unwrap();
    assert!(matches!(ans, UserAnswer::Cancelled));
}

#[test]
fn island_single_selected_carries_real_label() {
    let ans = parse_island_answer("submit", Some(Ok(UserAnswer::Selected { label: "右上角".into() }))).unwrap();
    match ans {
        UserAnswer::Selected { label } => assert_eq!(label, "右上角"),
        other => panic!("期望 Selected，得到 {other:?}"),
    }
}

#[test]
fn island_multi_answer_roundtrips() {
    let payload = UserAnswer::Multi {
        items: vec![
            MultiQuestionAnswer { title: "策略".into(), answer: SingleAnswer::Selected { label: "A".into() } },
            MultiQuestionAnswer {
                title: "范围".into(),
                answer: SingleAnswer::SelectedMulti { labels: vec!["x".into(), "y".into()] },
            },
            MultiQuestionAnswer { title: "备注".into(), answer: SingleAnswer::Custom { text: "随便写写".into() } },
        ],
    };
    let ans = parse_island_answer("submit", Some(Ok(payload))).unwrap();
    match ans {
        UserAnswer::Multi { items } => {
            assert_eq!(items.len(), 3);
            assert_eq!(items[0].title, "策略");
            assert!(matches!(&items[1].answer, SingleAnswer::SelectedMulti { labels } if labels == &["x", "y"]));
        }
        other => panic!("期望 Multi，得到 {other:?}"),
    }
}

#[test]
fn island_answer_errors() {
    assert_eq!(parse_island_answer("submit", None), Ok(UserAnswer::Cancelled));
    assert_eq!(
        parse_island_answer("submit", Some(Err("bad".into()))),
        Err("answer 反序列化失败: bad".to_string())
    );
    assert_eq!(parse_island_answer("poke", None), Err("未知 action: poke".to_string()));
}

#[test]
fn island_buttons() {
    assert_eq!(island_decision("allow"), Some(ApprovalDecision::AllowOnce));
    assert_eq!(island_decision("deny"), Some(ApprovalDecision::Deny));
    assert_eq!(
        island_decision("allow_project"),
        Some(ApprovalDecision::AllowAndRemember { scope: PermissionScope::Project, pattern: None, extra_patterns: vec![] })
    );
    assert_eq!(island_decision("nope"), None);
}

#[test]
fn pending_requests_resolve_once() {
    let mut s = HitlState::new();
    s.track("r1".into(), 7);
    s.track("r2".into(), 7);
    s.track("r3".into(), 9);
    s.track_run("r1".into(), 7);
    assert!(s.has_pending());
    assert_eq!(s.cancel_run("r1"), Some(7));
    assert_eq!(s.resolve_approval("r1", ApprovalDecision::Deny), Ok((7, ApprovalDecision::Deny)));
    assert_eq!(s.resolve_approval("r1", ApprovalDecision::Deny), Err("找不到 request_id: r1".to_string()));
    assert_eq!(s.answer_question("r3", UserAnswer::Cancelled), Ok((9, UserAnswer::Cancelled)));
    s.forget(7);
    assert!(!s.has_pending());
    assert_eq!(s.cancel_run("r1"), None);
    s.track_remote("r4".into(), "sess".into());
    assert_eq!(s.remote_session_of("r4"), Some("sess".to_string()));
    assert_eq!(s.remote_session_of("r4"), Some("sess".to_string()));
    s.forget_remote("r4");
    assert_eq!(s.remote_session_of("r4"), None);
}

#[test]
fn closing_cancels_each_channel_once() {
    let mut s = HitlState::new();
    s.track("a".into(), 1);
    s.track("b".into(), 1);
    s.track("c".into(), 2);
    s.track_run("a".into(), 3);
    let mut gates = s.cancel_all_pending();
    gates.sort();
    assert_eq!(gates, vec![1, 2, 3]);
    assert!(!s.has_pending());
}

fn no_fields() -> ToolInputFields {
    ToolInputFields { command: None, file_path: None, pattern: None, path: None }
}

#[test]
fn approval_card_bodies() {
    let mut f = no_fields();
    f.command = Some("ls -la".into());
    assert_eq!(approval_card_body("tool_call", "Bash", &f, "s", &vec![]), "Bash ls -la");
    let mut g = no_fields();
    g.pattern = Some("todo".into());
    g.path = Some("src".into());
    assert_eq!(approval_card_body("tool_call", "Grep", &g, "", &vec![]), "Grep todo @ src");
    assert_eq!(approval_card_body("path_access", "Read", &no_fields(), "", &vec!["/x".into()]), "Read 越界访问：/x");
    assert_eq!(approval_card_body("tool_call", "Write", &no_fields(), "write it", &vec![]), "write it");
    assert_eq!(approval_card_body("tool_call", "Other", &no_fields(), "", &vec![]), "Other");
}

#[test]
fn island_cards_follow_the_engine() {
    let acts = push_engine_event_to_island(&IslandEvent::PermissionRequested {
        request_id: "r".into(),
        kind: "tool_call".into(),
        tool_name: "Bash".into(),
        fields: no_fields(),
        summary: "run".into(),
        paths: vec![],
        auto_handled: false,
    });
    assert_eq!(acts, vec![IslandAction::Show(IslandCard::new("perm-r".into(), "approval", "需要你的审批", "run".into()))]);
    let acts = push_engine_event_to_island(&IslandEvent::PermissionAutoJudged {
        request_id: "r".into(),
        tool_name: "Bash".into(),
        reason: Some("risky".into()),
        requires_human: true,
    });
    assert_eq!(acts, vec![IslandAction::Show(IslandCard::new("perm-r".into(), "approval", "需要你的审批", "Bash：risky".into()))]);
    let acts = push_engine_event_to_island(&IslandEvent::UserQuestionRequested {
        request_id: "q".into(),
        question: "Pick?".into(),
        options: vec![QuestionOption { label: "A".into(), description: "a".into() }],
        multi: true,
        questions: vec![],
    });
    match &acts[..] {
        [IslandAction::Show(c)] => {
            assert_eq!(c.id, "question-q");
            assert_eq!(c.body, "Pick?");
            assert!(c.multi_select);
            assert_eq!(c.options.len(), 1);
        }
        other => panic!("unexpected {other:?}"),
    }
    assert_eq!(
        push_engine_event_to_island(&IslandEvent::UserQuestionAnswered { request_id: "q".into() }),
        vec![IslandAction::Dismiss("perm-q".into()), IslandAction::Dismiss("question-q".into())]
    );
    assert!(push_engine_event_to_island(&IslandEvent::Other).is_empty());
}

#[test]
fn island_replies_reach_their_cards() {
    assert_eq!(island_reply_target("perm-r1"), IslandReplyTarget::Approval { request_id: "r1".into() });
    assert_eq!(island_reply_target("question-问1"), IslandReplyTarget::Question { request_id: "问1".into() });
    assert_eq!(island_reply_target("perm-"), IslandReplyTarget::Approval { request_id: String::new() });
    assert_eq!(island_reply_target("notice-1"), IslandReplyTarget::Unknown);
    assert_eq!(island_reply_target("perm"), IslandReplyTarget::Unknown);
    // A card id made for a request routes back to it.
    let acts = push_engine_event_to_island(&IslandEvent::PermissionResolved { request_id: "x9".into() });
    match &acts[1] {
        IslandAction::Dismiss(id) => {
            assert_eq!(island_reply_target(id), IslandReplyTarget::Question { request_id: "x9".into() })
        }
        other => panic!("unexpected {other:?}"),
    }
}
