use hebbian::chunking::{drain_ready_chunks, find_split_point};
use hebbian::gateway::{approval_reply, question_reply, PendingInteractions, Resolution};
use hebbian::protocol::{ApprovalDecision, UserAnswer};

#[test]
fn approval_replies() {
    assert_eq!(approval_reply("  Yes "), ApprovalDecision::AllowOnce);
    assert_eq!(approval_reply("y"), ApprovalDecision::AllowOnce);
    assert_eq!(approval_reply("通过"), ApprovalDecision::AllowOnce);
    assert_eq!(
        approval_reply("deny too risky"),
        ApprovalDecision::DenyWithFeedback { feedback: "too risky".into() }
    );
    assert_eq!(
        approval_reply("DENY  x"),
        ApprovalDecision::DenyWithFeedback { feedback: " x".into() }
    );
    assert_eq!(
        approval_reply("拒绝 不行"),
        ApprovalDecision::DenyWithFeedback { feedback: "不行".into() }
    );
    assert_eq!(approval_reply("deny"), ApprovalDecision::Deny);
    assert_eq!(approval_reply("no"), ApprovalDecision::Deny);
}

#[test]
fn question_replies() {
    assert_eq!(question_reply(" Cancel "), UserAnswer::Cancelled);
    assert_eq!(question_reply("取消"), UserAnswer::Cancelled);
    assert_eq!(question_reply(" blue "), UserAnswer::Custom { text: "blue".into() });
}

#[test]
fn pending_approvals_come_first_and_are_all_settled() {
    let mut p: PendingInteractions<u32, u32> = PendingInteractions::new();
    assert!(matches!(p.try_resolve_pending("hi"), Resolution::NotPending));
    p.questions.insert("q1".into(), 7);
    p.approvals.insert("a1".into(), 1);
    p.approvals.insert("a2".into(), 2);
    match p.try_resolve_pending("yes") {
        Resolution::Approval { request_id, responder, decision } => {
            assert!(request_id == "a1" && responder == 1 || request_id == "a2" && responder == 2);
            assert_eq!(decision, ApprovalDecision::AllowOnce);
        }
        _ => panic!("expected an approval"),
    }
    assert_eq!(p.approvals.len(), 0);
    assert_eq!(p.questions.len(), 1);
    match p.try_resolve_pending("cancel") {
        Resolution::Question { request_id, responder, answer } => {
            assert_eq!((request_id.as_str(), responder), ("q1", 7));
            assert_eq!(answer, UserAnswer::Cancelled);
        }
        _ => panic!("expected a question"),
    }
    assert!(matches!(p.try_resolve_pending("again"), Resolution::NotPending));
}

#[test]
fn split_points() {
    assert_eq!(find_split_point("a\n\nb"), Some(3));
    assert_eq!(find_split_point("short"), None);
    let long = "a".repeat(600);
    assert_eq!(find_split_point(&long), Some(500));
    let with_dot = format!("{}.{}", "a".repeat(100), "b".repeat(500));
    assert_eq!(find_split_point(&with_dot), Some(101));
    let with_nl = format!("{}\n{}.{}", "a".repeat(50), "b".repeat(100), "c".repeat(500));
    assert_eq!(find_split_point(&with_nl), Some(51));
    let with_stop = format!("{}。{}", "字".repeat(10), "b".repeat(600));
    assert_eq!(find_split_point(&with_stop), Some(33));
}

#[test]
fn draining_cuts_messages_off_the_front() {
    let mut buf = String::from("para one\n\n\n\npara two\n\nrest");
    let chunks = drain_ready_chunks(&mut buf);
    assert_eq!(chunks, vec!["para one", "para two"]);
    assert_eq!(buf, "rest");
    let mut buf = String::from("nothing yet");
    assert!(drain_ready_chunks(&mut buf).is_empty());
    assert_eq!(buf, "nothing yet");
}
