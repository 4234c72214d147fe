use hebbian::memory_backfill::{plan_backfill, BackfillArgs};
use hebbian::memory_backfill::{
    check_execute_allowed, dry_run_report, execute_report, report_lines, select_sessions,
    session_report, ExtractOutcome, SessionMeta,
};

fn meta(id: &str, n: usize) -> SessionMeta {
    SessionMeta { id: id.to_string(), title: format!("t-{id}"), message_count: n }
}

#[test]
fn execute_needs_active_memory() {
    assert!(check_execute_allowed(true, false).is_err());
    assert!(check_execute_allowed(true, true).is_ok());
    assert!(check_execute_allowed(false, false).is_ok());
}

#[test]
fn selection_window_and_filter() {
    let metas = vec![meta("a", 1), meta("b", 2), meta("c", 3), meta("d", 4)];
    let (total, chosen) = select_sessions(&metas, None, 1, Some(2)).unwrap();
    assert_eq!(total, 4);
    assert_eq!(chosen, vec![meta("b", 2), meta("c", 3)]);
    let (_, chosen) = select_sessions(&metas, None, 3, None).unwrap();
    assert_eq!(chosen, vec![meta("d", 4)]);
    let (_, chosen) = select_sessions(&metas, None, 9, Some(1)).unwrap();
    assert!(chosen.is_empty());
    let (total, chosen) = select_sessions(&metas, Some("c"), 0, None).unwrap();
    assert_eq!((total, chosen), (1, vec![meta("c", 3)]));
    assert_eq!(select_sessions(&metas, Some("zz"), 0, None), Err("session 不存在：zz".to_string()));
}

#[test]
fn reports_and_their_text() {
    let dry = dry_run_report(5, vec![meta("a", 1), meta("b", 2)]);
    assert_eq!(dry.skipped, 2);
    assert_eq!(dry.sessions[0].status, "dry_run");
    assert_eq!(
        report_lines(&dry),
        vec![
            "记忆回灌预览：候选 5 个，本次将处理 2 个；加 --execute 才会调用模型并写盘".to_string(),
            "- a [dry_run] messages=1 written=0".to_string(),
            "- b [dry_run] messages=2 written=0".to_string(),
        ]
    );
    let reports = vec![
        session_report(meta("a", 10), ExtractOutcome::Extracted { written: 3, model: "m".into() }),
        session_report(meta("b", 20), ExtractOutcome::Skipped),
        session_report(meta("c", 30), ExtractOutcome::Failed { error: "boom".into() }),
    ];
    let r = execute_report(7, reports);
    assert_eq!((r.processed, r.succeeded, r.skipped, r.failed), (3, 1, 1, 1));
    assert_eq!(
        report_lines(&r),
        vec![
            "记忆回灌完成：处理 3 个，成功 1 个，跳过 1 个，失败 1 个".to_string(),
            "- a [extracted] messages=10 written=3 model=m".to_string(),
            "- b [skipped] messages=20 written=0".to_string(),
            "- c [failed] messages=30 written=0 error=boom".to_string(),
        ]
    );
}

fn args(execute: bool, session_id: Option<&str>, offset: usize, limit: Option<usize>) -> BackfillArgs {
    BackfillArgs {
        data_dir: None,
        session_id: session_id.map(str::to_string),
        limit,
        offset,
        reset_cursor: false,
        consolidate: false,
        execute,
        json: false,
    }
}

#[test]
fn backfill_plans() {
    let metas = vec![meta("a", 1), meta("b", 2), meta("c", 3)];
    assert_eq!(
        plan_backfill(&args(true, None, 0, None), &metas, false),
        Err("记忆系统未启用或未配置记忆模型；请先在设置里启用记忆并配置模型，或去掉 --execute 做预览".to_string())
    );
    let (total, chosen, report) = plan_backfill(&args(true, None, 1, Some(1)), &metas, true).unwrap();
    assert_eq!((total, chosen), (3, vec![meta("b", 2)]));
    assert!(report.is_none());
    let (total, chosen, report) = plan_backfill(&args(false, None, 1, None), &metas, false).unwrap();
    assert_eq!(total, 3);
    assert_eq!(chosen, vec![meta("b", 2), meta("c", 3)]);
    assert_eq!(report, Some(dry_run_report(3, vec![meta("b", 2), meta("c", 3)])));
    assert_eq!(
        plan_backfill(&args(false, Some("zz"), 0, None), &metas, true),
        Err("session 不存在：zz".to_string())
    );
}
