use hebbian::desktop::{diff_target, revert_result, revert_target, EditSnapshot, RevertResult};
use hebbian::desktop::{
    apply_allowed_paths_update, attach_plan, attach_target, check_skill_md, guess_media_type,
    hex_val, image_attachment, looks_like_text, merge_paths, parse_perm_scope, parse_rule_effect,
    path_access_plan, percent_decode, AllowedPaths, AttachPlan, MessageAttachment, PathPersist,
    RuleEffect, MAX_IMAGE_BYTES, MAX_TEXT_FILE_BYTES,
};
use hebbian::messages::{Message, Role};
use hebbian::protocol::{ApprovalDecision, PermissionScope};

#[test]
fn scopes_and_effects() {
    assert_eq!(parse_perm_scope("project"), Ok(PermissionScope::Project));
    assert_eq!(parse_perm_scope("once"), Ok(PermissionScope::Once));
    assert_eq!(parse_perm_scope("forever"), Err("未知 scope: forever".to_string()));
    assert_eq!(parse_rule_effect("deny"), RuleEffect::Deny);
    assert_eq!(parse_rule_effect("whatever"), RuleEffect::Allow);
}

#[test]
fn percent_decoding() {
    assert_eq!(hex_val(b'a'), Some(10));
    assert_eq!(hex_val(b'F'), Some(15));
    assert_eq!(hex_val(b'g'), None);
    assert_eq!(percent_decode("a%20b"), "a b");
    assert_eq!(percent_decode("%E4%BD%A0"), "你");
    assert_eq!(percent_decode("100%"), "100%");
    assert_eq!(percent_decode("%zz"), "%zz");
    assert_eq!(percent_decode("%ff"), "\u{FFFD}");
}

#[test]
fn media_types() {
    assert_eq!(guess_media_type("/x/a.PNG"), "image/png");
    assert_eq!(guess_media_type("/x/a.jpeg"), "image/jpeg");
    assert_eq!(guess_media_type("/x/readme"), "text/plain");
    assert_eq!(guess_media_type("/x/a.md"), "text/markdown");
    assert!(looks_like_text("text/plain", "/x/a"));
    assert!(looks_like_text("application/octet-stream", "/x/a.rs"));
    assert!(!looks_like_text("application/octet-stream", "/x/a.bin"));
}

#[test]
fn attaching_by_path() {
    assert_eq!(attach_target("   "), None);
    assert_eq!(attach_target("  /tmp/a.txt "), Some("/tmp/a.txt".to_string()));
    assert_eq!(attach_target("file:///tmp/my%20file.txt"), Some("/tmp/my file.txt".to_string()));
    assert_eq!(attach_plan("/tmp/dir", true, 0), AttachPlan::Dir { path: "/tmp/dir".into(), name: "dir".into() });
    assert_eq!(
        attach_plan("/tmp/a.png", false, MAX_IMAGE_BYTES),
        AttachPlan::ReadImage { name: "a.png".into(), media_type: "image/png".into() }
    );
    assert_eq!(
        attach_plan("/tmp/a.png", false, MAX_IMAGE_BYTES + 1),
        AttachPlan::Unsupported { reason: "a.png 超过 12MB".into() }
    );
    assert_eq!(
        attach_plan("/tmp/a.rs", false, MAX_TEXT_FILE_BYTES + 1),
        AttachPlan::Unsupported { reason: "a.rs 超过 1MB".into() }
    );
    assert_eq!(
        attach_plan("/tmp/a.bin", false, 1),
        AttachPlan::ReadText { name: "a.bin".into(), media_type: "text/plain".into() }
    );
    assert_eq!(
        attach_plan("/tmp/a.json", false, 1),
        AttachPlan::ReadText { name: "a.json".into(), media_type: "application/json".into() }
    );
    assert_eq!(
        image_attachment("a.png".into(), "image/png".into(), b"Man"),
        MessageAttachment::Image { name: "a.png".into(), media_type: "image/png".into(), data: "TWFu".into() }
    );
}

#[test]
fn skill_files_only() {
    assert_eq!(check_skill_md("/skills/x/SKILL.md"), Ok(()));
    assert_eq!(check_skill_md("/skills/x/skill.md"), Err("仅允许读取 SKILL.md 文件".to_string()));
    assert!(check_skill_md("/").is_err());
}

fn user() -> Message {
    Message { id: "u".into(), role: Role::User, content: "hi".into() }
}

#[test]
fn allowed_paths_only_grow_after_the_first_message() {
    let mut p = AllowedPaths { allowed_paths: Some(vec!["/a".into()]), runtime_allowed_paths: vec![], pending_runtime_allowed_paths: vec![] };
    assert_eq!(apply_allowed_paths_update(&mut p, &[], Some(vec!["/b".into()])), Ok(()));
    assert_eq!(p.allowed_paths, Some(vec!["/b".to_string()]));

    let msgs = [user()];
    assert_eq!(
        apply_allowed_paths_update(&mut p, &msgs, Some(vec!["/c".into()])),
        Err("对话开始后不能移除已允许的路径：/b".to_string())
    );
    assert_eq!(p.allowed_paths, Some(vec!["/b".to_string()]));
    assert_eq!(apply_allowed_paths_update(&mut p, &msgs, Some(vec!["/b/".into(), "/c".into()])), Ok(()));
    assert_eq!(p.pending_runtime_allowed_paths, vec!["/c".to_string()]);
    assert_eq!(apply_allowed_paths_update(&mut p, &msgs, None), Err("对话开始后不能移除已允许的路径：/b".to_string()));
}

#[test]
fn path_access_approvals() {
    assert_eq!(
        path_access_plan("this_session", Some("s")),
        Ok((PathPersist::Session, ApprovalDecision::AllowAndRemember { scope: PermissionScope::Session, pattern: None, extra_patterns: vec![] }))
    );
    assert_eq!(path_access_plan("this_session", None), Err("approve_path_access: this_session 需要 session_id".to_string()));
    assert_eq!(path_access_plan("once", None), Ok((PathPersist::Nothing, ApprovalDecision::AllowOnce)));
    assert_eq!(path_access_plan("bogus", None), Err("未知 scope: bogus".to_string()));
    let mut existing = vec!["/a".to_string()];
    merge_paths(&mut existing, &vec!["/a/".to_string(), "/b".to_string(), "/b".to_string()]);
    assert_eq!(existing, vec!["/a".to_string(), "/b".to_string()]);
}

fn snap(id: &str, reverted: bool) -> EditSnapshot {
    EditSnapshot { snapshot_id: id.into(), reverted, real_path: format!("/w/{id}") }
}

#[test]
fn edit_snapshots_for_diff_and_revert() {
    let entries = vec![snap("s1", true), snap("s2", false), snap("s2", true)];
    assert_eq!(diff_target(false, &entries, "s1"), Err("git 不可用，无法生成 diff".to_string()));
    assert_eq!(diff_target(true, &entries, "s1"), Ok(0));
    assert_eq!(diff_target(true, &entries, "s2"), Ok(1));
    assert_eq!(diff_target(true, &entries, "s9"), Err("找不到该快照".to_string()));
    assert_eq!(revert_target(false, &entries, "s2"), Err("git 不可用，回退功能已禁用".to_string()));
    assert_eq!(revert_target(true, &entries, "s1"), Err("该快照已回退过".to_string()));
    assert_eq!(revert_target(true, &entries, "s2"), Ok(1));
    assert_eq!(revert_target(true, &entries, "s9"), Err("找不到该快照".to_string()));
    assert_eq!(revert_result(Ok(())), RevertResult { success: true, error: None });
    assert_eq!(revert_result(Err("冲突".into())), RevertResult { success: false, error: Some("冲突".into()) });
}
