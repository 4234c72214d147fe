//! `heb memory backfill`: which conversations a run covers, what it reports
//! per conversation and in total, and the text of that report.

use vstd::prelude::*;
use crate::text::{chars_of, concat_str, decimal, decimal_spec, eq_str};

verus! {

/// A stored conversation as the listing describes it.
#[derive(Debug, PartialEq, Eq)]
pub struct SessionMeta {
    pub id: String,
    pub title: String,
    pub message_count: usize,
}

/// Refuses a real run while the memory system is off or has no model.
pub fn check_execute_allowed(execute: bool, memory_active: bool) -> (r: Result<(), String>)
    ensures
        (execute && !memory_active) <==> r is Err,
        r matches Err(e) ==> e@ == "记忆系统未启用或未配置记忆模型；请先在设置里启用记忆并配置模型，或去掉 --execute 做预览"@,
{
    if execute && !memory_active {
        Err("记忆系统未启用或未配置记忆模型；请先在设置里启用记忆并配置模型，或去掉 --execute 做预览".to_string())
    } else {
        Ok(())
    }
}

/// `offset` entries skipped, then at most `limit` taken (all without a limit).
pub open spec fn window<T>(s: Seq<T>, offset: nat, limit: Option<nat>) -> Seq<T> {
    let rest = if offset <= s.len() { s.subrange(offset as int, s.len() as int) } else { Seq::empty() };
    match limit {
        Some(l) => if l < rest.len() { rest.subrange(0, l as int) } else { rest },
        None => rest,
    }
}

pub open spec fn candidates(metas: Seq<SessionMeta>, session_id: Option<Seq<char>>) -> Seq<SessionMeta> {
    match session_id {
        Some(id) => metas.filter(|m: SessionMeta| m.id@ == id),
        None => metas,
    }
}

pub open spec fn opt_str(o: Option<&str>) -> Option<Seq<char>> {
    match o {
        Some(s) => Some(s@),
        None => None,
    }
}

pub open spec fn opt_nat(o: Option<usize>) -> Option<nat> {
    match o {
        Some(n) => Some(n as nat),
        None => None,
    }
}

fn copy_meta(m: &SessionMeta) -> (r: SessionMeta)
    ensures
        r == *m,
{
    SessionMeta { id: m.id.clone(), title: m.title.clone(), message_count: m.message_count }
}

/// Whether `r` is what selecting from `metas` gives: the candidates (all, or
/// those with id `session_id`, an error when there are none), how many there
/// were, and the window `offset` / `limit` of them.
pub open spec fn selection_spec(metas: Seq<SessionMeta>, session_id: Option<Seq<char>>, offset: nat, limit: Option<nat>, r: Result<(usize, Vec<SessionMeta>), String>) -> bool {
    let c = candidates(metas, session_id);
    if session_id is Some && c.len() == 0 {
        r matches Err(e) && e@ == "session 不存在："@ + session_id->0
    } else {
        r matches Ok((total, chosen)) && total == c.len() && chosen@ == window(c, offset, limit)
    }
}

/// The conversations a run covers, and how many there were to choose from.
pub fn select_sessions(metas: &Vec<SessionMeta>, session_id: Option<&str>, offset: usize, limit: Option<usize>) -> (r: Result<(usize, Vec<SessionMeta>), String>)
    ensures
        selection_spec(metas@, opt_str(session_id), offset as nat, opt_nat(limit), r),
{
    let mut cands: Vec<SessionMeta> = Vec::new();
    let mut i: usize = 0;
    let ghost sid = opt_str(session_id);
    while i < metas.len()
        invariant
            i <= metas.len(),
            sid == opt_str(session_id),
            cands@ == candidates(metas@.subrange(0, i as int), sid),
        decreases metas.len() - i,
    {
        let keep = match session_id {
            Some(id) => {
                let mv = chars_of(metas[i].id.as_str());
                eq_str(&mv, id)
            },
            None => true,
        };
        proof {
            let s = metas@.subrange(0, i + 1);
            assert(s.drop_last() =~= metas@.subrange(0, i as int));
            assert(s.last() == metas@[i as int]);
            reveal_with_fuel(Seq::filter, 1);
        }
        if keep {
            cands.push(copy_meta(&metas[i]));
        }
        i += 1;
        assert(cands@ =~= candidates(metas@.subrange(0, i as int), sid));
    }
    assert(metas@.subrange(0, metas.len() as int) =~= metas@);
    let total = cands.len();
    match session_id {
        Some(id) => if total == 0 {
            return Err(concat_str("session 不存在：", id));
        },
        None => {},
    }
    let start: usize = if offset <= total { offset } else { total };
    let end: usize = match limit {
        Some(l) => if l < total - start { start + l } else { total },
        None => total,
    };
    let mut chosen: Vec<SessionMeta> = Vec::new();
    let mut k: usize = start;
    while k < end
        invariant
            start <= k <= end,
            end <= total,
            total == cands.len(),
            chosen@ == cands@.subrange(start as int, k as int),
        decreases end - k,
    {
        chosen.push(copy_meta(&cands[k]));
        k += 1;
    }
    proof {
        let rest = if offset <= total { cands@.subrange(offset as int, total as int) } else { Seq::empty() };
        assert(rest =~= cands@.subrange(start as int, total as int));
        match limit {
            Some(l) => if l < rest.len() {
                assert(rest.subrange(0, l as int) =~= chosen@);
            } else {
                assert(rest =~= chosen@);
            },
            None => {
                assert(rest =~= chosen@);
            },
        }
    }
    Ok((total, chosen))
}

/// What extracting memories from one conversation came to.
#[derive(Debug, PartialEq, Eq)]
pub enum ExtractOutcome {
    /// `written` memories were written by `model`.
    Extracted { written: usize, model: String },
    /// Nothing new to extract.
    Skipped,
    Failed { error: String },
}

/// One conversation's line of the report.
#[derive(Debug, PartialEq, Eq)]
pub struct SessionReport {
    pub session_id: String,
    pub title: String,
    pub message_count: usize,
    pub status: String,
    pub written: usize,
    pub model: Option<String>,
    pub error: Option<String>,
}

/// The report of a run.
#[derive(Debug, PartialEq, Eq)]
pub struct BackfillReport {
    pub execute: bool,
    pub total_candidates: usize,
    pub processed: usize,
    pub skipped: usize,
    pub succeeded: usize,
    pub failed: usize,
    pub sessions: Vec<SessionReport>,
}

pub open spec fn status_spec(o: ExtractOutcome) -> Seq<char> {
    match o {
        ExtractOutcome::Extracted { .. } => "extracted"@,
        ExtractOutcome::Skipped => "skipped"@,
        ExtractOutcome::Failed { .. } => "failed"@,
    }
}

/// The report line of `meta` after `outcome`.
pub fn session_report(meta: SessionMeta, outcome: ExtractOutcome) -> (r: SessionReport)
    ensures
        r.session_id == meta.id && r.title == meta.title && r.message_count == meta.message_count,
        r.status@ == status_spec(outcome),
        r.written == (match outcome { ExtractOutcome::Extracted { written, .. } => written, _ => 0 }),
        r.model == (match outcome { ExtractOutcome::Extracted { model, .. } => Some(model), _ => None }),
        r.error == (match outcome { ExtractOutcome::Failed { error } => Some(error), _ => None }),
{
    let SessionMeta { id, title, message_count } = meta;
    match outcome {
        ExtractOutcome::Extracted { written, model } => SessionReport {
            session_id: id, title, message_count, status: "extracted".to_string(), written, model: Some(model), error: None,
        },
        ExtractOutcome::Skipped => SessionReport {
            session_id: id, title, message_count, status: "skipped".to_string(), written: 0, model: None, error: None,
        },
        ExtractOutcome::Failed { error } => SessionReport {
            session_id: id, title, message_count, status: "failed".to_string(), written: 0, model: None, error: Some(error),
        },
    }
}

pub open spec fn dry_entry(m: SessionMeta, r: SessionReport) -> bool {
    r.session_id == m.id && r.title == m.title && r.message_count == m.message_count && r.status@ == "dry_run"@
        && r.written == 0 && r.model is None && r.error is None
}

/// A preview run: nothing processed, every chosen conversation listed as a dry run.
pub fn dry_run_report(total_candidates: usize, selected: Vec<SessionMeta>) -> (r: BackfillReport)
    ensures
        !r.execute && r.total_candidates == total_candidates,
        r.processed == 0 && r.succeeded == 0 && r.failed == 0,
        r.skipped == selected.len(),
        r.sessions.len() == selected.len(),
        forall|i: int| 0 <= i < selected.len() ==> dry_entry(selected@[i], #[trigger] r.sessions@[i]),
{
    let n = selected.len();
    let mut sessions: Vec<SessionReport> = Vec::new();
    let mut i: usize = 0;
    while i < n
        invariant
            i <= n,
            n == selected.len(),
            sessions.len() == i,
            forall|j: int| 0 <= j < i ==> dry_entry(selected@[j], #[trigger] sessions@[j]),
        decreases n - i,
    {
        let m = &selected[i];
        sessions.push(SessionReport {
            session_id: m.id.clone(),
            title: m.title.clone(),
            message_count: m.message_count,
            status: "dry_run".to_string(),
            written: 0,
            model: None,
            error: None,
        });
        i += 1;
    }
    BackfillReport { execute: false, total_candidates, processed: 0, skipped: n, succeeded: 0, failed: 0, sessions }
}

/// How many reports have status `st`.
pub open spec fn status_count(rs: Seq<SessionReport>, st: Seq<char>) -> nat
    decreases rs.len(),
{
    if rs.len() == 0 {
        0
    } else {
        status_count(rs.drop_last(), st) + (if rs.last().status@ == st { 1nat } else { 0nat })
    }
}

pub proof fn lemma_status_count_bound(rs: Seq<SessionReport>, st: Seq<char>)
    ensures
        status_count(rs, st) <= rs.len(),
    decreases rs.len(),
{
    if rs.len() > 0 {
        lemma_status_count_bound(rs.drop_last(), st);
    }
}

/// A real run's report: the per-conversation reports, and how many of them
/// succeeded, were skipped or failed.
pub fn execute_report(total_candidates: usize, reports: Vec<SessionReport>) -> (r: BackfillReport)
    ensures
        r.execute && r.total_candidates == total_candidates,
        r.processed == reports.len(),
        r.succeeded == status_count(reports@, "extracted"@),
        r.skipped == status_count(reports@, "skipped"@),
        r.failed == status_count(reports@, "failed"@),
        r.sessions@ == reports@,
{
    let mut succeeded: usize = 0;
    let mut skipped: usize = 0;
    let mut failed: usize = 0;
    let mut i: usize = 0;
    while i < reports.len()
        invariant
            i <= reports.len(),
            succeeded == status_count(reports@.subrange(0, i as int), "extracted"@),
            skipped == status_count(reports@.subrange(0, i as int), "skipped"@),
            failed == status_count(reports@.subrange(0, i as int), "failed"@),
        decreases reports.len() - i,
    {
        let sv = chars_of(reports[i].status.as_str());
        proof {
            let sub = reports@.subrange(0, i + 1);
            assert(sub.drop_last() =~= reports@.subrange(0, i as int));
            assert(sub.last() == reports@[i as int]);
            lemma_status_count_bound(reports@.subrange(0, i as int), "extracted"@);
            lemma_status_count_bound(reports@.subrange(0, i as int), "skipped"@);
            lemma_status_count_bound(reports@.subrange(0, i as int), "failed"@);
        }
        if eq_str(&sv, "extracted") {
            succeeded += 1;
        }
        if eq_str(&sv, "skipped") {
            skipped += 1;
        }
        if eq_str(&sv, "failed") {
            failed += 1;
        }
        i += 1;
    }
    assert(reports@.subrange(0, reports.len() as int) =~= reports@);
    let processed = reports.len();
    BackfillReport { execute: true, total_candidates, processed, skipped, succeeded, failed, sessions: reports }
}

pub open spec fn dec(n: usize) -> Seq<char> {
    decimal_spec(n as nat)
}

pub open spec fn headline_spec(r: BackfillReport) -> Seq<char> {
    if r.execute {
        "记忆回灌完成：处理 "@ + dec(r.processed) + " 个，成功 "@ + dec(r.succeeded) + " 个，跳过 "@ + dec(r.skipped)
            + " 个，失败 "@ + dec(r.failed) + " 个"@
    } else {
        "记忆回灌预览：候选 "@ + dec(r.total_candidates) + " 个，本次将处理 "@ + dec(r.sessions.len() as usize)
            + " 个；加 --execute 才会调用模型并写盘"@
    }
}

pub open spec fn session_line_spec(s: SessionReport) -> Seq<char> {
    "- "@ + s.session_id@ + " ["@ + s.status@ + "] messages="@ + dec(s.message_count) + " written="@ + dec(s.written)
        + match (s.model, s.error) {
            (Some(m), _) => " model="@ + m@,
            (None, Some(e)) => " error="@ + e@,
            (None, None) => Seq::empty(),
        }
}

fn usize_text(n: usize) -> (s: String)
    ensures
        s@ == dec(n),
{
    decimal(n as u64)
}

fn cat(parts: &Vec<&str>) -> (s: String)
    ensures
        s@ == parts@.fold_left(Seq::<char>::empty(), |acc: Seq<char>, p: &str| acc + p@),
{
    let mut out = String::new();
    let mut i: usize = 0;
    assert(parts@.subrange(0, 0) =~= Seq::<&str>::empty());
    while i < parts.len()
        invariant
            i <= parts.len(),
            out@ == parts@.subrange(0, i as int).fold_left(Seq::<char>::empty(), |acc: Seq<char>, p: &str| acc + p@),
        decreases parts.len() - i,
    {
        out = concat_str(out.as_str(), parts[i]);
        proof {
            let sub = parts@.subrange(0, i + 1);
            assert(sub.drop_last() =~= parts@.subrange(0, i as int));
            assert(sub.last() == parts@[i as int]);
        }
        i += 1;
    }
    assert(parts@.subrange(0, parts.len() as int) =~= parts@);
    out
}

/// The text of the report: a headline, then one line per conversation.
pub fn report_lines(r: &BackfillReport) -> (lines: Vec<String>)
    ensures
        lines.len() == r.sessions.len() + 1,
        lines@[0]@ == headline_spec(*r),
        forall|i: int| 0 <= i < r.sessions.len() ==> #[trigger] lines@[i + 1]@ == session_line_spec(r.sessions@[i]),
{
    let head = if r.execute {
        let a = usize_text(r.processed);
        let b = usize_text(r.succeeded);
        let c = usize_text(r.skipped);
        let d = usize_text(r.failed);
        let v: Vec<&str> = vec!["记忆回灌完成：处理 ", a.as_str(), " 个，成功 ", b.as_str(), " 个，跳过 ", c.as_str(), " 个，失败 ", d.as_str(), " 个"];
        let s = cat(&v);
        proof {
            reveal_with_fuel(Seq::fold_left, 10);
        }
        assert(s@ == headline_spec(*r)) by {
            assert(v@.subrange(0, 9) =~= v@);
        }
        s
    } else {
        let a = usize_text(r.total_candidates);
        let b = usize_text(r.sessions.len());
        let v: Vec<&str> = vec!["记忆回灌预览：候选 ", a.as_str(), " 个，本次将处理 ", b.as_str(), " 个；加 --execute 才会调用模型并写盘"];
        let s = cat(&v);
        proof {
            reveal_with_fuel(Seq::fold_left, 6);
        }
        s
    };
    let mut lines: Vec<String> = Vec::new();
    lines.push(head);
    let mut i: usize = 0;
    while i < r.sessions.len()
        invariant
            i <= r.sessions.len(),
            lines.len() == i + 1,
            lines@[0]@ == headline_spec(*r),
            forall|j: int| 0 <= j < i ==> #[trigger] lines@[j + 1]@ == session_line_spec(r.sessions@[j]),
        decreases r.sessions.len() - i,
    {
        let s = &r.sessions[i];
        let mc = usize_text(s.message_count);
        let w = usize_text(s.written);
        let suffix: String = match (&s.model, &s.error) {
            (Some(m), _) => concat_str(" model=", m.as_str()),
            (None, Some(e)) => concat_str(" error=", e.as_str()),
            (None, None) => String::new(),
        };
        let v: Vec<&str> = vec!["- ", s.session_id.as_str(), " [", s.status.as_str(), "] messages=", mc.as_str(), " written=", w.as_str(), suffix.as_str()];
        let line = cat(&v);
        proof {
            reveal_with_fuel(Seq::fold_left, 10);
        }
        lines.push(line);
        i += 1;
    }
    lines
}


/// The options of `heb memory backfill`.
#[derive(Debug, PartialEq, Eq)]
pub struct BackfillArgs {
    pub data_dir: Option<String>,
    pub session_id: Option<String>,
    pub limit: Option<usize>,
    pub offset: usize,
    pub reset_cursor: bool,
    pub consolidate: bool,
    pub execute: bool,
    pub json: bool,
}

pub open spec fn opt_string(o: Option<String>) -> Option<Seq<char>> {
    match o {
        Some(s) => Some(s@),
        None => None,
    }
}

/// What a run does before any extraction: refuse a real run without the
/// memory system, pick the conversations, and for a preview report them
/// all as dry runs (`Ok(None)`: a real run goes on with the chosen ones).
pub fn plan_backfill(args: &BackfillArgs, metas: &Vec<SessionMeta>, memory_active: bool) -> (r: Result<(usize, Vec<SessionMeta>, Option<BackfillReport>), String>)
    ensures
        (args.execute && !memory_active) ==> (r matches Err(e)
            && e@ == "记忆系统未启用或未配置记忆模型；请先在设置里启用记忆并配置模型，或去掉 --execute 做预览"@),
        !(args.execute && !memory_active) ==> {
            let c = candidates(metas@, opt_string(args.session_id));
            if args.session_id is Some && c.len() == 0 {
                r matches Err(e) && e@ == "session 不存在："@ + args.session_id->0@
            } else {
                r matches Ok((total, chosen, report)) && total == c.len()
                    && chosen@ == window(c, args.offset as nat, opt_nat(args.limit))
                    && (args.execute ==> report is None)
                    && (!args.execute ==> (report matches Some(rep) && !rep.execute && rep.total_candidates == total
                        && rep.processed == 0 && rep.succeeded == 0 && rep.failed == 0 && rep.skipped == chosen.len()
                        && rep.sessions.len() == chosen.len()
                        && forall|i: int| 0 <= i < chosen.len() ==> dry_entry(chosen@[i], #[trigger] rep.sessions@[i])))
            }
        },
{
    check_execute_allowed(args.execute, memory_active)?;
    let sid: Option<&str> = match &args.session_id {
        Some(s) => Some(s.as_str()),
        None => None,
    };
    assert(opt_str(sid) == opt_string(args.session_id));
    let (total, chosen) = select_sessions(metas, sid, args.offset, args.limit)?;
    if args.execute {
        return Ok((total, chosen, None));
    }
    let mut copy: Vec<SessionMeta> = Vec::new();
    let mut i: usize = 0;
    while i < chosen.len()
        invariant
            i <= chosen.len(),
            copy@ == chosen@.subrange(0, i as int),
        decreases chosen.len() - i,
    {
        copy.push(copy_meta(&chosen[i]));
        i += 1;
    }
    assert(copy@ =~= chosen@);
    let report = dry_run_report(total, copy);
    Ok((total, chosen, Some(report)))
}

} // verus!

