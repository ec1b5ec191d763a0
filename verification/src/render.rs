//! Text and Markdown renderings of a receipt.

use vstd::prelude::*;

use crate::json::{json_text, object_get, write_json};
use crate::model::{
    ApiDetection, ApiDetectionOrigin, ApiDetectionView, CallReport, CallReportView, Check,
    CheckStatus, CheckView, GithubServiceReceipt, GithubServiceReceiptView, JobApiReport,
    JobApiReportView, OidcReport, OidcReportView, PermissionLevel, PermissionResolution,
    PermissionResolutionView, PermissionScope, PermissionSource, ReceiptSummary, StepApiReport,
    StepApiReportView, Timestamp, WorkflowReport, WorkflowReportView, compatibility_name,
    level_name, timestamp_valid,
};
use crate::text;
use crate::text::{ascii_upper_seq, decimal, push_char, signed_decimal, starts_with_seq};
use crate::value::{JsonValue, JsonView, json_view, object_view};

verus! {

/// The pieces that `f` gives for each item, one after another.
pub open spec fn each<A>(items: Seq<A>, f: spec_fn(A) -> Seq<char>) -> Seq<char>
    decreases items.len(),
{
    if items.len() == 0 {
        Seq::empty()
    } else {
        each(items.drop_last(), f) + f(items.last())
    }
}

proof fn lemma_each_step<A>(items: Seq<A>, f: spec_fn(A) -> Seq<char>, i: int)
    requires
        0 <= i < items.len(),
    ensures
        each(items.take(i + 1), f) == each(items.take(i), f) + f(items[i]),
{
    assert(items.take(i + 1).drop_last() =~= items.take(i));
}

pub open spec fn bool_text(b: bool) -> Seq<char> {
    if b {
        "true"@
    } else {
        "false"@
    }
}

fn bool_str(b: bool) -> (r: &'static str)
    ensures
        r@ == bool_text(b),
{
    if b {
        "true"
    } else {
        "false"
    }
}

pub open spec fn status_symbol(s: CheckStatus) -> Seq<char> {
    match s {
        CheckStatus::Pass => "[PASS]"@,
        CheckStatus::Warn => "[WARN]"@,
        CheckStatus::Fail => "[FAIL]"@,
        CheckStatus::Skip => "[SKIP]"@,
    }
}

pub open spec fn status_word(s: CheckStatus) -> Seq<char> {
    match s {
        CheckStatus::Pass => "pass"@,
        CheckStatus::Warn => "warn"@,
        CheckStatus::Fail => "fail"@,
        CheckStatus::Skip => "skip"@,
    }
}

/// A check's bracketed symbol is its status word in capitals; the word has
/// four letters and begins the summary word under which that status is
/// counted (`passed`, `warned`, `failed`, `skipped`), so each status has its
/// own word.
pub proof fn law_status_words(s: CheckStatus)
    ensures
        status_symbol(s) == "["@ + ascii_upper_seq(status_word(s)) + "]"@,
        status_word(s).len() == 4,
        starts_with_seq(
            match s {
                CheckStatus::Pass => "passed"@,
                CheckStatus::Warn => "warned"@,
                CheckStatus::Fail => "failed"@,
                CheckStatus::Skip => "skipped"@,
            },
            status_word(s),
        ),
{
    reveal_strlit("pass");
    reveal_strlit("warn");
    reveal_strlit("fail");
    reveal_strlit("skip");
    reveal_strlit("[PASS]");
    reveal_strlit("[WARN]");
    reveal_strlit("[FAIL]");
    reveal_strlit("[SKIP]");
    reveal_strlit("[");
    reveal_strlit("]");
    reveal_strlit("passed");
    reveal_strlit("warned");
    reveal_strlit("failed");
    reveal_strlit("skipped");
    let w = status_word(s);
    assert(status_symbol(s) =~= "["@ + ascii_upper_seq(w) + "]"@);
    let long = match s {
        CheckStatus::Pass => "passed"@,
        CheckStatus::Warn => "warned"@,
        CheckStatus::Fail => "failed"@,
        CheckStatus::Skip => "skipped"@,
    };
    assert(long.take(4) =~= w);
}

/// `s` left-aligned in `width` columns.
pub open spec fn pad_to(s: Seq<char>, width: nat) -> Seq<char> {
    if s.len() < width {
        s + Seq::new((width - s.len()) as nat, |i: int| ' ')
    } else {
        s
    }
}

fn status_symbol_str(s: CheckStatus) -> (r: &'static str)
    ensures
        r@ == status_symbol(s),
{
    match s {
        CheckStatus::Pass => "[PASS]",
        CheckStatus::Warn => "[WARN]",
        CheckStatus::Fail => "[FAIL]",
        CheckStatus::Skip => "[SKIP]",
    }
}

fn status_word_str(s: CheckStatus) -> (r: &'static str)
    ensures
        r@ == status_word(s),
{
    match s {
        CheckStatus::Pass => "pass",
        CheckStatus::Warn => "warn",
        CheckStatus::Fail => "fail",
        CheckStatus::Skip => "skip",
    }
}

/// The status word in five columns.
fn padded_status_word(s: CheckStatus) -> (r: &'static str)
    ensures
        r@ == pad_to(status_word(s), 5),
{
    proof {
        reveal_strlit("pass");
        reveal_strlit("warn");
        reveal_strlit("fail");
        reveal_strlit("skip");
        reveal_strlit("pass ");
        reveal_strlit("warn ");
        reveal_strlit("fail ");
        reveal_strlit("skip ");
    }
    let r = match s {
        CheckStatus::Pass => "pass ",
        CheckStatus::Warn => "warn ",
        CheckStatus::Fail => "fail ",
        CheckStatus::Skip => "skip ",
    };
    assert(r@ =~= pad_to(status_word(s), 5));
    r
}

pub open spec fn scope_name(s: PermissionScope) -> Seq<char> {
    match s {
        PermissionScope::Workflow => "Workflow"@,
        PermissionScope::Job => "Job"@,
    }
}

fn scope_str(s: PermissionScope) -> (r: &'static str)
    ensures
        r@ == scope_name(s),
{
    match s {
        PermissionScope::Workflow => "Workflow",
        PermissionScope::Job => "Job",
    }
}

pub open spec fn source_name(s: PermissionSource) -> Seq<char> {
    match s {
        PermissionSource::JobBlock => "JobBlock"@,
        PermissionSource::WorkflowBlock => "WorkflowBlock"@,
        PermissionSource::DefaultRestricted => "DefaultRestricted"@,
    }
}

fn source_str(s: PermissionSource) -> (r: &'static str)
    ensures
        r@ == source_name(s),
{
    match s {
        PermissionSource::JobBlock => "JobBlock",
        PermissionSource::WorkflowBlock => "WorkflowBlock",
        PermissionSource::DefaultRestricted => "DefaultRestricted",
    }
}

pub open spec fn origin_name(o: ApiDetectionOrigin) -> Seq<char> {
    match o {
        ApiDetectionOrigin::GhCli => "GhCli"@,
        ApiDetectionOrigin::Curl => "Curl"@,
        ApiDetectionOrigin::GithubScript => "GithubScript"@,
        ApiDetectionOrigin::ReleaseAction => "ReleaseAction"@,
        ApiDetectionOrigin::OidcAction => "OidcAction"@,
    }
}

fn origin_str(o: ApiDetectionOrigin) -> (r: &'static str)
    ensures
        r@ == origin_name(o),
{
    match o {
        ApiDetectionOrigin::GhCli => "GhCli",
        ApiDetectionOrigin::Curl => "Curl",
        ApiDetectionOrigin::GithubScript => "GithubScript",
        ApiDetectionOrigin::ReleaseAction => "ReleaseAction",
        ApiDetectionOrigin::OidcAction => "OidcAction",
    }
}

/// `{indent}{symbol} {word:<5} {message}` and a line feed.
pub open spec fn check_line(indent: Seq<char>, c: CheckView) -> Seq<char> {
    indent + status_symbol(c.status) + " "@ + pad_to(status_word(c.status), 5) + " "@ + c.message
        + "\n"@
}

pub open spec fn check_line_with(indent: Seq<char>) -> spec_fn(CheckView) -> Seq<char> {
    |c: CheckView| check_line(indent, c)
}

fn push_usize(out: &mut String, n: usize)
    ensures
        final(out)@ == old(out)@ + decimal(n as nat),
{
    let t = text::usize_to_string(n);
    out.append(t.as_str());
}

fn push_i64(out: &mut String, n: i64)
    ensures
        final(out)@ == old(out)@ + signed_decimal(n as int),
{
    let t = text::i64_to_string(n);
    out.append(t.as_str());
}

fn push_check_line(out: &mut String, indent: &str, c: &Check)
    ensures
        final(out)@ == old(out)@ + check_line(indent@, c.deep_view()),
{
    let ghost start = out@;
    out.append(indent);
    out.append(status_symbol_str(c.status));
    out.append(" ");
    out.append(padded_status_word(c.status));
    out.append(" ");
    out.append(c.message.as_str());
    out.append("\n");
    assert(out@ =~= start + check_line(indent@, c.deep_view()));
}

fn push_check_lines(out: &mut String, indent: &str, checks: &Vec<Check>)
    ensures
        final(out)@ == old(out)@ + each(checks.deep_view(), check_line_with(indent@)),
{
    let ghost start = out@;
    let ghost cv = checks.deep_view();
    let ghost f = check_line_with(indent@);
    assert(cv.take(0) =~= Seq::<CheckView>::empty());
    assert(out@ =~= start + each(cv.take(0), f));
    let mut i: usize = 0;
    while i < checks.len()
        invariant
            cv == checks.deep_view(),
            f == check_line_with(indent@),
            i <= cv.len(),
            out@ == start + each(cv.take(i as int), f),
        decreases checks.len() - i,
    {
        proof {
            lemma_each_step(cv, f, i as int);
        }
        push_check_line(out, indent, &checks[i]);
        assert(out@ =~= start + each(cv.take(i + 1), f));
        i += 1;
    }
    assert(cv.take(i as int) =~= cv);
}

/// `{indent}{key}: {level}` and a line feed.
pub open spec fn entry_line(indent: Seq<char>, e: (Seq<char>, PermissionLevel)) -> Seq<char> {
    indent + e.0 + ": "@ + level_name(e.1) + "\n"@
}

pub open spec fn entry_line_with(indent: Seq<char>) -> spec_fn((Seq<char>, PermissionLevel)) -> Seq<
    char,
> {
    |e: (Seq<char>, PermissionLevel)| entry_line(indent, e)
}

fn push_entry_lines(out: &mut String, indent: &str, entries: &Vec<(String, PermissionLevel)>)
    ensures
        final(out)@ == old(out)@ + each(entries.deep_view(), entry_line_with(indent@)),
{
    let ghost start = out@;
    let ghost ev = entries.deep_view();
    let ghost f = entry_line_with(indent@);
    assert(ev.take(0) =~= Seq::<(Seq<char>, PermissionLevel)>::empty());
    assert(out@ =~= start + each(ev.take(0), f));
    let mut i: usize = 0;
    while i < entries.len()
        invariant
            ev == entries.deep_view(),
            f == entry_line_with(indent@),
            i <= ev.len(),
            out@ == start + each(ev.take(i as int), f),
        decreases entries.len() - i,
    {
        proof {
            lemma_each_step(ev, f, i as int);
        }
        let ghost before = out@;
        out.append(indent);
        out.append(entries[i].0.as_str());
        out.append(": ");
        out.append(entries[i].1.as_str());
        out.append("\n");
        assert(out@ =~= before + f(ev[i as int]));
        assert(out@ =~= start + each(ev.take(i + 1), f));
        i += 1;
    }
    assert(ev.take(i as int) =~= ev);
}

/// `  unknown: {key}` and a line feed.
pub open spec fn unknown_line(u: Seq<char>) -> Seq<char> {
    "  unknown: "@ + u + "\n"@
}

pub open spec fn unknown_line_fn() -> spec_fn(Seq<char>) -> Seq<char> {
    |u: Seq<char>| unknown_line(u)
}

fn push_unknown_lines(out: &mut String, keys: &Vec<String>)
    ensures
        final(out)@ == old(out)@ + each(keys.deep_view(), unknown_line_fn()),
{
    let ghost start = out@;
    let ghost kv = keys.deep_view();
    let ghost f = unknown_line_fn();
    assert(kv.take(0) =~= Seq::<Seq<char>>::empty());
    assert(out@ =~= start + each(kv.take(0), f));
    let mut i: usize = 0;
    while i < keys.len()
        invariant
            kv == keys.deep_view(),
            f == unknown_line_fn(),
            i <= kv.len(),
            out@ == start + each(kv.take(i as int), f),
        decreases keys.len() - i,
    {
        proof {
            lemma_each_step(kv, f, i as int);
        }
        let ghost before = out@;
        out.append("  unknown: ");
        out.append(keys[i].as_str());
        out.append("\n");
        assert(out@ =~= before + f(kv[i as int]));
        assert(out@ =~= start + each(kv.take(i + 1), f));
        i += 1;
    }
    assert(kv.take(i as int) =~= kv);
}

/// The summary counts as `{p} passed, {w} warned, {f} failed, {s} skipped`.
pub open spec fn summary_counts(s: ReceiptSummary) -> Seq<char> {
    decimal(s.passed as nat) + " passed, "@ + decimal(s.warnings as nat) + " warned, "@ + decimal(
        s.failed as nat,
    ) + " failed, "@ + decimal(s.skipped as nat) + " skipped"@
}

fn push_summary_counts(out: &mut String, s: &ReceiptSummary)
    ensures
        final(out)@ == old(out)@ + summary_counts(*s),
{
    let ghost start = out@;
    push_usize(out, s.passed);
    out.append(" passed, ");
    push_usize(out, s.warnings);
    out.append(" warned, ");
    push_usize(out, s.failed);
    out.append(" failed, ");
    push_usize(out, s.skipped);
    out.append(" skipped");
    assert(out@ =~= start + summary_counts(*s));
}

/// The text of the permissions of a receipt.
pub open spec fn permissions_text(r: PermissionResolutionView) -> Seq<char> {
    "\npermissions ("@ + scope_name(r.scope) + " from "@ + source_name(r.source) + "):\n"@ + each(
        r.effective.entries,
        entry_line_with("  "@),
    ) + match r.effective.shorthand {
        Some(s) => "  shorthand: "@ + s + "\n"@,
        None => Seq::empty(),
    } + each(r.effective.unknown_keys, unknown_line_fn()) + each(r.checks, check_line_with("  "@))
}

fn push_permissions_text(out: &mut String, r: &PermissionResolution)
    ensures
        final(out)@ == old(out)@ + permissions_text(r.deep_view()),
{
    let ghost start = out@;
    out.append("\npermissions (");
    out.append(scope_str(r.scope));
    out.append(" from ");
    out.append(source_str(r.source));
    out.append("):\n");
    push_entry_lines(out, "  ", &r.effective.entries);
    let ghost mid = out@;
    match &r.effective.shorthand {
        Some(s) => {
            out.append("  shorthand: ");
            out.append(s.as_str());
            out.append("\n");
        },
        None => {},
    }
    let ghost mid2 = out@;
    assert(mid2 =~= mid + match r.deep_view().effective.shorthand {
        Some(s) => "  shorthand: "@ + s + "\n"@,
        None => Seq::<char>::empty(),
    });
    push_unknown_lines(out, &r.effective.unknown_keys);
    push_check_lines(out, "  ", &r.checks);
    assert(out@ =~= start + permissions_text(r.deep_view()));
}

/// The text of a job's permission resolution.
pub open spec fn resolution_text(r: PermissionResolutionView) -> Seq<char> {
    "    permissions (source: "@ + source_name(r.source) + "):\n"@ + each(
        r.effective.entries,
        entry_line_with("      "@),
    ) + each(r.checks, check_line_with("    "@))
}

fn push_resolution_text(out: &mut String, r: &PermissionResolution)
    ensures
        final(out)@ == old(out)@ + resolution_text(r.deep_view()),
{
    let ghost start = out@;
    out.append("    permissions (source: ");
    out.append(source_str(r.source));
    out.append("):\n");
    push_entry_lines(out, "      ", &r.effective.entries);
    push_check_lines(out, "    ", &r.checks);
    assert(out@ =~= start + resolution_text(r.deep_view()));
}

/// The text of one detection.
pub open spec fn detection_text(d: ApiDetectionView) -> Seq<char> {
    "      detect: "@ + d.method + " "@ + d.path + " -> "@ + compatibility_name(d.classification)
        + " ("@ + origin_name(d.origin) + ") ["@ + (if d.satisfied {
        "satisfied"@
    } else {
        "missing"@
    }) + "]\n"@
}

pub open spec fn detection_text_fn() -> spec_fn(ApiDetectionView) -> Seq<char> {
    |d: ApiDetectionView| detection_text(d)
}

/// How a step is labelled: its name, else what it uses, else `step {index}`.
pub open spec fn step_label(s: StepApiReportView) -> Seq<char> {
    match s.step_name {
        Some(n) => n,
        None => match s.uses {
            Some(u) => u,
            None => "step "@ + decimal(s.step_index as nat),
        },
    }
}

/// The first line of a step's text.
pub open spec fn step_head(s: StepApiReportView) -> Seq<char> {
    "    step "@ + decimal(s.step_index as nat) + ": "@ + step_label(s) + "\n"@
}

/// The text of one step.
pub open spec fn step_text(s: StepApiReportView) -> Seq<char> {
    step_head(s) + each(s.detections, detection_text_fn()) + each(s.checks, check_line_with("      "@))
}

pub open spec fn step_text_fn() -> spec_fn(StepApiReportView) -> Seq<char> {
    |s: StepApiReportView| step_text(s)
}

fn push_detection_text(out: &mut String, d: &ApiDetection)
    ensures
        final(out)@ == old(out)@ + detection_text(d.deep_view()),
{
    let ghost start = out@;
    out.append("      detect: ");
    out.append(d.method.as_str());
    out.append(" ");
    out.append(d.path.as_str());
    out.append(" -> ");
    out.append(d.classification.as_str());
    out.append(" (");
    out.append(origin_str(d.origin));
    out.append(") [");
    if d.satisfied {
        out.append("satisfied");
    } else {
        out.append("missing");
    }
    out.append("]\n");
    assert(out@ =~= start + detection_text(d.deep_view()));
}

fn push_step_head(out: &mut String, s: &StepApiReport)
    ensures
        final(out)@ == old(out)@ + step_head(s.deep_view()),
{
    let ghost start = out@;
    out.append("    step ");
    push_usize(out, s.step_index);
    out.append(": ");
    match &s.step_name {
        Some(n) => out.append(n.as_str()),
        None => match &s.uses {
            Some(u) => out.append(u.as_str()),
            None => {
                out.append("step ");
                push_usize(out, s.step_index);
            },
        },
    }
    out.append("\n");
    assert(out@ =~= start + step_head(s.deep_view()));
}

fn push_step_text(out: &mut String, s: &StepApiReport)
    ensures
        final(out)@ == old(out)@ + step_text(s.deep_view()),
{
    let ghost start = out@;
    push_step_head(out, s);
    let ghost mid = out@;
    let ghost dv = s.detections.deep_view();
    let ghost f = detection_text_fn();
    assert(dv.take(0) =~= Seq::<ApiDetectionView>::empty());
    assert(out@ =~= mid + each(dv.take(0), f));
    let mut i: usize = 0;
    while i < s.detections.len()
        invariant
            dv == s.detections.deep_view(),
            f == detection_text_fn(),
            i <= dv.len(),
            out@ == mid + each(dv.take(i as int), f),
        decreases s.detections.len() - i,
    {
        proof {
            lemma_each_step(dv, f, i as int);
        }
        push_detection_text(out, &s.detections[i]);
        assert(out@ =~= mid + each(dv.take(i + 1), f));
        i += 1;
    }
    assert(dv.take(i as int) =~= dv);
    push_check_lines(out, "      ", &s.checks);
    assert(out@ =~= start + step_text(s.deep_view()));
}

/// The text of one job.
pub open spec fn job_text(j: JobApiReportView) -> Seq<char> {
    "  job "@ + j.job_id + ":\n"@ + resolution_text(j.permissions) + each(j.steps, step_text_fn())
        + each(j.checks, check_line_with("    "@))
}

pub open spec fn job_text_fn() -> spec_fn(JobApiReportView) -> Seq<char> {
    |j: JobApiReportView| job_text(j)
}

fn push_job_text(out: &mut String, j: &JobApiReport)
    ensures
        final(out)@ == old(out)@ + job_text(j.deep_view()),
{
    let ghost start = out@;
    out.append("  job ");
    out.append(j.job_id.as_str());
    out.append(":\n");
    push_resolution_text(out, &j.permissions);
    let ghost mid = out@;
    let ghost sv = j.steps.deep_view();
    let ghost f = step_text_fn();
    assert(sv.take(0) =~= Seq::<StepApiReportView>::empty());
    assert(out@ =~= mid + each(sv.take(0), f));
    let mut i: usize = 0;
    while i < j.steps.len()
        invariant
            sv == j.steps.deep_view(),
            f == step_text_fn(),
            i <= sv.len(),
            out@ == mid + each(sv.take(i as int), f),
        decreases j.steps.len() - i,
    {
        proof {
            lemma_each_step(sv, f, i as int);
        }
        push_step_text(out, &j.steps[i]);
        assert(out@ =~= mid + each(sv.take(i + 1), f));
        i += 1;
    }
    assert(sv.take(i as int) =~= sv);
    push_check_lines(out, "    ", &j.checks);
    assert(out@ =~= start + job_text(j.deep_view()));
}

/// The text of one workflow.
pub open spec fn workflow_text(w: WorkflowReportView) -> Seq<char> {
    "\nworkflow "@ + w.workflow + ":\n"@ + "  summary: "@ + summary_counts(w.summary) + "\n"@ + each(
        w.jobs,
        job_text_fn(),
    ) + each(w.checks, check_line_with("  "@))
}

pub open spec fn workflow_text_fn() -> spec_fn(WorkflowReportView) -> Seq<char> {
    |w: WorkflowReportView| workflow_text(w)
}

fn push_workflow_text(out: &mut String, w: &WorkflowReport)
    ensures
        final(out)@ == old(out)@ + workflow_text(w.deep_view()),
{
    let ghost start = out@;
    out.append("\nworkflow ");
    out.append(w.workflow.as_str());
    out.append(":\n");
    out.append("  summary: ");
    push_summary_counts(out, &w.summary);
    out.append("\n");
    let ghost mid = out@;
    let ghost jv = w.jobs.deep_view();
    let ghost f = job_text_fn();
    assert(jv.take(0) =~= Seq::<JobApiReportView>::empty());
    assert(out@ =~= mid + each(jv.take(0), f));
    let mut i: usize = 0;
    while i < w.jobs.len()
        invariant
            jv == w.jobs.deep_view(),
            f == job_text_fn(),
            i <= jv.len(),
            out@ == mid + each(jv.take(i as int), f),
        decreases w.jobs.len() - i,
    {
        proof {
            lemma_each_step(jv, f, i as int);
        }
        push_job_text(out, &w.jobs[i]);
        assert(out@ =~= mid + each(jv.take(i + 1), f));
        i += 1;
    }
    assert(jv.take(i as int) =~= jv);
    push_check_lines(out, "  ", &w.checks);
    assert(out@ =~= start + workflow_text(w.deep_view()));
}

/// The text of one call, indented by `pad`.
pub open spec fn call_text(pad: Seq<char>, c: CallReportView) -> Seq<char> {
    pad + c.method + " "@ + c.path + " -> "@ + compatibility_name(c.classification) + "\n"@
        + match c.catalog_match {
        Some(m) => pad + "  catalog: "@ + m.endpoint_id + " ("@ + m.category + ")\n"@,
        None => match c.unsupported_reason {
            Some(reason) => pad + "  reason: "@ + reason + "\n"@,
            None => Seq::empty(),
        },
    } + each(c.checks, check_line_with(pad + "  "@))
}

pub open spec fn call_text_with(pad: Seq<char>) -> spec_fn(CallReportView) -> Seq<char> {
    |c: CallReportView| call_text(pad, c)
}

#[verifier::rlimit(40)]
fn push_call_text(out: &mut String, c: &CallReport)
    ensures
        final(out)@ == old(out)@ + call_text("  "@, c.deep_view()),
{
    let ghost start = out@;
    out.append("  ");
    out.append(c.method.as_str());
    out.append(" ");
    out.append(c.path.as_str());
    out.append(" -> ");
    out.append(c.classification.as_str());
    out.append("\n");
    let ghost mid = out@;
    match &c.catalog_match {
        Some(m) => {
            out.append("  ");
            out.append("  catalog: ");
            out.append(m.endpoint_id.as_str());
            out.append(" (");
            out.append(m.category.as_str());
            out.append(")\n");
        },
        None => match &c.unsupported_reason {
            Some(reason) => {
                out.append("  ");
                out.append("  reason: ");
                out.append(reason.as_str());
                out.append("\n");
            },
            None => {},
        },
    }
    let ghost cv = c.deep_view();
    assert(out@ =~= mid + match cv.catalog_match {
        Some(m) => "  "@ + "  catalog: "@ + m.endpoint_id + " ("@ + m.category + ")\n"@,
        None => match cv.unsupported_reason {
            Some(reason) => "  "@ + "  reason: "@ + reason + "\n"@,
            None => Seq::<char>::empty(),
        },
    });
    proof {
        reveal_strlit("  ");
        reveal_strlit("    ");
    }
    push_check_lines(out, "    ", &c.checks);
    assert("  "@ + "  "@ =~= "    "@);
    assert(out@ =~= start + call_text("  "@, cv));
}

fn push_calls_text(out: &mut String, calls: &Vec<CallReport>)
    ensures
        final(out)@ == old(out)@ + each(calls.deep_view(), call_text_with("  "@)),
{
    let ghost start = out@;
    let ghost cv = calls.deep_view();
    let ghost f = call_text_with("  "@);
    assert(cv.take(0) =~= Seq::<CallReportView>::empty());
    assert(out@ =~= start + each(cv.take(0), f));
    let mut i: usize = 0;
    while i < calls.len()
        invariant
            cv == calls.deep_view(),
            f == call_text_with("  "@),
            i <= cv.len(),
            out@ == start + each(cv.take(i as int), f),
        decreases calls.len() - i,
    {
        proof {
            lemma_each_step(cv, f, i as int);
        }
        push_call_text(out, &calls[i]);
        assert(out@ =~= start + each(cv.take(i + 1), f));
        i += 1;
    }
    assert(cv.take(i as int) =~= cv);
}

/// A claim value as text: a string as it is, anything else as compact JSON.
pub open spec fn claim_text(v: JsonView) -> Seq<char> {
    match v {
        JsonView::Text(s) => s,
        _ => json_text(v),
    }
}

/// The first `n` characters of `s` (all of it when shorter).
pub open spec fn first_chars(s: Seq<char>, n: nat) -> Seq<char> {
    if s.len() <= n {
        s
    } else {
        s.take(n as int)
    }
}

/// The first lines of an OIDC report's text.
pub open spec fn oidc_head(o: OidcReportView) -> Seq<char> {
    "\noidc: audience="@ + o.audience + " signing_mode="@ + o.signing_mode + " compatibility="@
        + compatibility_name(o.compatibility) + "\n"@
}

/// The `sub` line of an OIDC report's text.
pub open spec fn oidc_sub_line(o: OidcReportView) -> Seq<char> {
    "  sub: "@ + match object_get(o.claims, "sub"@) {
        Some(v) => claim_text(v),
        None => Seq::empty(),
    } + "\n"@
}

/// The lifetime, token and warning lines of an OIDC report's text.
pub open spec fn oidc_tail(o: OidcReportView) -> Seq<char> {
    "  iat/exp: "@ + signed_decimal(o.iat as int) + "/"@ + signed_decimal(o.exp as int) + "\n"@
        + "  token: "@ + first_chars(o.token, 24) + "...\n"@ + "  warning: "@ + o.warning + "\n"@
}

/// The text of an OIDC report.
pub open spec fn oidc_text(o: OidcReportView) -> Seq<char> {
    oidc_head(o) + oidc_sub_line(o) + oidc_tail(o) + each(o.checks, check_line_with("  "@))
}

/// Appends the first `n` characters of `s`.
fn push_first_chars(out: &mut String, s: &str, n: usize)
    ensures
        final(out)@ == old(out)@ + first_chars(s@, n as nat),
{
    let ghost start = out@;
    let v = text::chars_of(s);
    let mut i: usize = 0;
    while i < v.len() && i < n
        invariant
            v@ == s@,
            i <= v@.len(),
            i <= n,
            out@ == start + s@.take(i as int),
        decreases v.len() - i,
    {
        push_char(out, v[i]);
        assert(s@.take(i + 1) =~= s@.take(i as int).push(s@[i as int]));
        i += 1;
    }
    proof {
        if s@.len() <= n {
            assert(s@.take(i as int) =~= s@);
        }
    }
}

/// Appends a claim value as text.
fn push_claim_text(out: &mut String, claims: &Vec<(String, JsonValue)>, key: &str)
    ensures
        final(out)@ == old(out)@ + match object_get(object_view(claims@), key@) {
            Some(v) => claim_text(v),
            None => Seq::empty(),
        },
{
    let ghost cv = object_view(claims@);
    let ghost start = out@;
    assert(cv.skip(0) =~= cv);
    let mut i: usize = 0;
    while i < claims.len()
        invariant
            out@ == start,
            start == old(out)@,
            cv == object_view(claims@),
            i <= claims@.len(),
            object_get(cv, key@) == object_get(cv.skip(i as int), key@),
        decreases claims.len() - i,
    {
        assert(cv.skip(i as int).drop_first() =~= cv.skip(i + 1));
        assert(cv.skip(i as int)[0] == cv[i as int]);
        if text::str_eq(claims[i].0.as_str(), key) {
            assert(object_get(cv, key@) == Some(json_view(claims@[i as int].1)));
            match &claims[i].1 {
                JsonValue::Text(t) => {
                    assert(json_view(claims@[i as int].1) == JsonView::Text(t@));
                    out.append(t.as_str());
                    assert(out@ == start + claim_text(json_view(claims@[i as int].1)));
                },
                other => {
                    assert(*other == claims@[i as int].1);
                    assert(!(json_view(*other) is Text));
                    write_json(out, other);
                    assert(out@ == start + claim_text(json_view(claims@[i as int].1)));
                },
            }
            return;
        }
        i += 1;
    }
    assert(cv.skip(i as int).len() == 0);
}

fn push_oidc_head(out: &mut String, o: &OidcReport)
    ensures
        final(out)@ == old(out)@ + oidc_head(o.deep_view()),
{
    let ghost start = out@;
    out.append("\noidc: audience=");
    out.append(o.audience.as_str());
    out.append(" signing_mode=");
    out.append(o.signing_mode.as_str());
    out.append(" compatibility=");
    out.append(o.compatibility.as_str());
    out.append("\n");
    assert(out@ =~= start + oidc_head(o.deep_view()));
}

fn push_oidc_sub_line(out: &mut String, o: &OidcReport)
    ensures
        final(out)@ == old(out)@ + oidc_sub_line(o.deep_view()),
{
    let ghost start = out@;
    out.append("  sub: ");
    push_claim_text(out, &o.claims, "sub");
    out.append("\n");
    assert(out@ =~= start + oidc_sub_line(o.deep_view()));
}

fn push_oidc_tail(out: &mut String, o: &OidcReport)
    ensures
        final(out)@ == old(out)@ + oidc_tail(o.deep_view()),
{
    let ghost start = out@;
    out.append("  iat/exp: ");
    push_i64(out, o.iat);
    out.append("/");
    push_i64(out, o.exp);
    out.append("\n");
    out.append("  token: ");
    push_first_chars(out, o.token.as_str(), 24);
    out.append("...\n");
    out.append("  warning: ");
    out.append(o.warning.as_str());
    out.append("\n");
    assert(out@ =~= start + oidc_tail(o.deep_view()));
}

fn push_oidc_text(out: &mut String, o: &OidcReport)
    ensures
        final(out)@ == old(out)@ + oidc_text(o.deep_view()),
{
    let ghost start = out@;
    push_oidc_head(out, o);
    push_oidc_sub_line(out, o);
    push_oidc_tail(out, o);
    push_check_lines(out, "  ", &o.checks);
    assert(out@ =~= start + oidc_text(o.deep_view()));
}

/// The title and summary lines of a receipt's text.
pub open spec fn text_head(r: GithubServiceReceiptView) -> Seq<char> {
    r.tool.name + " "@ + r.tool.version + " ("@ + r.mode + ")\n"@ + "summary: "@ + summary_counts(
        r.summary,
    ) + "\n"@
}

pub open spec fn text_permissions(r: GithubServiceReceiptView) -> Seq<char> {
    match r.permissions {
        Some(p) => permissions_text(p),
        None => Seq::empty(),
    }
}

pub open spec fn text_calls(r: GithubServiceReceiptView) -> Seq<char> {
    if r.calls.len() > 0 {
        "\ncalls:\n"@ + each(r.calls, call_text_with("  "@))
    } else {
        Seq::empty()
    }
}

pub open spec fn text_oidc(r: GithubServiceReceiptView) -> Seq<char> {
    match r.oidc {
        Some(o) => oidc_text(o),
        None => Seq::empty(),
    }
}

pub open spec fn text_gh_log(r: GithubServiceReceiptView) -> Seq<char> {
    match r.gh_log {
        Some(g) => "\ngh-log replay: tool="@ + g.tool.name + " v"@ + g.tool.version + " captured="@
            + decimal(g.call_count as nat) + " calls (redaction_enforced="@ + bool_text(
            g.redaction_enforced,
        ) + ")\n"@ + each(g.calls, call_text_with("  "@)) + each(g.checks, check_line_with("  "@)),
        None => Seq::empty(),
    }
}

pub open spec fn text_checks(r: GithubServiceReceiptView) -> Seq<char> {
    if r.checks.len() > 0 {
        "\nchecks:\n"@ + each(r.checks, check_line_with("  "@))
    } else {
        Seq::empty()
    }
}

/// The plain-text rendering of a receipt: title and summary, permissions,
/// workflows, calls, OIDC report, gh-log replay, then receipt-level checks.
pub open spec fn receipt_text(r: GithubServiceReceiptView) -> Seq<char> {
    text_head(r) + text_permissions(r) + each(r.workflows, workflow_text_fn()) + text_calls(r)
        + text_oidc(r) + text_gh_log(r) + text_checks(r)
}

fn push_text_head(out: &mut String, receipt: &GithubServiceReceipt)
    ensures
        final(out)@ == old(out)@ + text_head(receipt.deep_view()),
{
    let ghost start = out@;
    out.append(receipt.tool.name.as_str());
    out.append(" ");
    out.append(receipt.tool.version.as_str());
    out.append(" (");
    out.append(receipt.mode.as_str());
    out.append(")\n");
    out.append("summary: ");
    push_summary_counts(out, &receipt.summary);
    out.append("\n");
    assert(out@ =~= start + text_head(receipt.deep_view()));
}

fn push_text_workflows(out: &mut String, workflows: &Vec<WorkflowReport>)
    ensures
        final(out)@ == old(out)@ + each(workflows.deep_view(), workflow_text_fn()),
{
    let ghost start = out@;
    let ghost wv = workflows.deep_view();
    let ghost f = workflow_text_fn();
    assert(wv.take(0) =~= Seq::<WorkflowReportView>::empty());
    assert(out@ =~= start + each(wv.take(0), f));
    let mut i: usize = 0;
    while i < workflows.len()
        invariant
            wv == workflows.deep_view(),
            f == workflow_text_fn(),
            i <= wv.len(),
            out@ == start + each(wv.take(i as int), f),
        decreases workflows.len() - i,
    {
        proof {
            lemma_each_step(wv, f, i as int);
        }
        push_workflow_text(out, &workflows[i]);
        assert(out@ =~= start + each(wv.take(i + 1), f));
        i += 1;
    }
    assert(wv.take(i as int) =~= wv);
}

fn push_text_gh_log(out: &mut String, receipt: &GithubServiceReceipt)
    ensures
        final(out)@ == old(out)@ + text_gh_log(receipt.deep_view()),
{
    let ghost start = out@;
    match &receipt.gh_log {
        Some(g) => {
            out.append("\ngh-log replay: tool=");
            out.append(g.tool.name.as_str());
            out.append(" v");
            out.append(g.tool.version.as_str());
            out.append(" captured=");
            push_usize(out, g.call_count);
            out.append(" calls (redaction_enforced=");
            out.append(bool_str(g.redaction_enforced));
            out.append(")\n");
            push_calls_text(out, &g.calls);
            push_check_lines(out, "  ", &g.checks);
        },
        None => {},
    }
    assert(out@ =~= start + text_gh_log(receipt.deep_view()));
}

/// Renders a receipt as plain text.
#[verifier::rlimit(50)]
pub fn render_text(receipt: &GithubServiceReceipt) -> (out: String)
    ensures
        out@ == receipt_text(receipt.deep_view()),
{
    let ghost r = receipt.deep_view();
    let mut out = String::new();
    push_text_head(&mut out, receipt);
    let ghost s1 = text_head(r);
    assert(out@ =~= s1);
    match &receipt.permissions {
        Some(p) => push_permissions_text(&mut out, p),
        None => {},
    }
    let ghost s2 = s1 + text_permissions(r);
    assert(out@ =~= s2);
    push_text_workflows(&mut out, &receipt.workflows);
    let ghost s3 = s2 + each(r.workflows, workflow_text_fn());
    assert(out@ =~= s3);
    if receipt.calls.len() > 0 {
        out.append("\ncalls:\n");
        push_calls_text(&mut out, &receipt.calls);
    }
    let ghost s4 = s3 + text_calls(r);
    assert(out@ =~= s4);
    match &receipt.oidc {
        Some(o) => push_oidc_text(&mut out, o),
        None => {},
    }
    let ghost s5 = s4 + text_oidc(r);
    assert(out@ =~= s5);
    push_text_gh_log(&mut out, receipt);
    let ghost s6 = s5 + text_gh_log(r);
    assert(out@ =~= s6);
    if receipt.checks.len() > 0 {
        out.append("\nchecks:\n");
        push_check_lines(&mut out, "  ", &receipt.checks);
    }
    assert(out@ =~= s6 + text_checks(r));
    out
}

/// How a character is written in Markdown text: `|` escaped as `\|`, a line
/// feed as `<br>`, anything else as it is. (Replacing every `|` first and
/// every line feed second gives the same text.)
pub open spec fn md_escape_char(c: char) -> Seq<char> {
    if c == '|' {
        seq!['\\', '|']
    } else if c == '\n' {
        "<br>"@
    } else {
        seq![c]
    }
}

pub open spec fn md_escape(s: Seq<char>) -> Seq<char>
    decreases s.len(),
{
    if s.len() == 0 {
        Seq::empty()
    } else {
        md_escape(s.drop_last()) + md_escape_char(s.last())
    }
}

/// Escaped Markdown text holds no line feed, and every `|` in it is escaped,
/// so a table cell stays one cell on one row.
pub proof fn law_md_escape_one_cell(s: Seq<char>)
    ensures
        forall|i: int| 0 <= i < md_escape(s).len() ==> #[trigger] md_escape(s)[i] != '\n',
        forall|i: int|
            0 <= i < md_escape(s).len() && #[trigger] md_escape(s)[i] == '|' ==> i > 0
                && md_escape(s)[i - 1] == '\\',
    decreases s.len(),
{
    reveal_strlit("<br>");
    if s.len() > 0 {
        law_md_escape_one_cell(s.drop_last());
        let a = md_escape(s.drop_last());
        let b = md_escape_char(s.last());
        assert(md_escape(s) == a + b);
        assert forall|i: int| 0 <= i < md_escape(s).len() implies #[trigger] md_escape(s)[i] != '\n'
            && (md_escape(s)[i] == '|' ==> i > 0 && md_escape(s)[i - 1] == '\\') by {
            if i < a.len() {
                assert(md_escape(s)[i] == a[i]);
                if i > 0 {
                    assert(md_escape(s)[i - 1] == a[i - 1]);
                }
            } else {
                assert(md_escape(s)[i] == b[i - a.len()]);
                if i > a.len() {
                    assert(md_escape(s)[i - 1] == b[i - 1 - a.len()]);
                }
            }
        }
    }
}

fn push_md_escaped(out: &mut String, s: &str)
    ensures
        final(out)@ == old(out)@ + md_escape(s@),
{
    let ghost start = out@;
    let v = text::chars_of(s);
    let mut i: usize = 0;
    while i < v.len()
        invariant
            v@ == s@,
            i <= v@.len(),
            out@ == start + md_escape(s@.take(i as int)),
        decreases v.len() - i,
    {
        assert(s@.take(i + 1).drop_last() =~= s@.take(i as int));
        let c = v[i];
        let ghost before = out@;
        if c == '|' {
            push_char(out, '\\');
            push_char(out, '|');
        } else if c == '\n' {
            out.append("<br>");
        } else {
            push_char(out, c);
        }
        assert(out@ =~= before + md_escape_char(c));
        assert(out@ =~= start + md_escape(s@.take(i + 1)));
        i += 1;
    }
    assert(s@.take(i as int) =~= s@);
}

/// How chrono displays the UTC instant `seconds`.`nanos` after the Unix epoch
/// (`YYYY-MM-DD HH:MM:SS`, a fraction when there is one, then ` UTC`).
pub uninterp spec fn utc_display(seconds: i64, nanos: u32) -> Seq<char>;

/// Calls chrono's `DateTime::<Utc>::from_timestamp` and formats the instant
/// with its `Display`; in the range that `timestamp_valid` admits the
/// instant always exists.
#[verifier::external_body]
fn utc_text(t: Timestamp) -> (r: String)
    requires
        timestamp_valid(t),
    ensures
        r@ == utc_display(t.seconds, t.nanos),
{
    match chrono::DateTime::from_timestamp(t.seconds, t.nanos) {
        Some(instant) => instant.to_string(),
        None => String::new(),
    }
}

/// The title, tool, mode and time lines of a receipt's Markdown.
pub open spec fn md_title(r: GithubServiceReceiptView) -> Seq<char> {
    "# gha-github-service-proof Receipt\n\n"@ + "- Tool: `"@ + r.tool.name + "` `"@ + r.tool.version
        + "`\n"@ + "- Mode: `"@ + md_escape(r.mode) + "`\n"@ + "- Checked at: `"@ + utc_display(
        r.checked_at.seconds,
        r.checked_at.nanos,
    ) + "`\n"@
}

/// The summary line of a receipt's Markdown.
pub open spec fn md_summary(s: ReceiptSummary) -> Seq<char> {
    "- Summary: **"@ + decimal(s.passed as nat) + " passed**, **"@ + decimal(s.warnings as nat)
        + " warned**, **"@ + decimal(s.failed as nat) + " failed**, **"@ + decimal(s.skipped as nat)
        + " skipped**\n\n"@
}

fn push_md_title(out: &mut String, receipt: &GithubServiceReceipt)
    requires
        timestamp_valid(receipt.checked_at),
    ensures
        final(out)@ == old(out)@ + md_title(receipt.deep_view()),
{
    let ghost start = out@;
    out.append("# gha-github-service-proof Receipt\n\n");
    out.append("- Tool: `");
    out.append(receipt.tool.name.as_str());
    out.append("` `");
    out.append(receipt.tool.version.as_str());
    out.append("`\n");
    out.append("- Mode: `");
    push_md_escaped(out, receipt.mode.as_str());
    out.append("`\n");
    out.append("- Checked at: `");
    let when = utc_text(receipt.checked_at);
    out.append(when.as_str());
    out.append("`\n");
    assert(out@ =~= start + md_title(receipt.deep_view()));
}

fn push_md_summary(out: &mut String, s: &ReceiptSummary)
    ensures
        final(out)@ == old(out)@ + md_summary(*s),
{
    let ghost start = out@;
    out.append("- Summary: **");
    push_usize(out, s.passed);
    out.append(" passed**, **");
    push_usize(out, s.warnings);
    out.append(" warned**, **");
    push_usize(out, s.failed);
    out.append(" failed**, **");
    push_usize(out, s.skipped);
    out.append(" skipped**\n\n");
    assert(out@ =~= start + md_summary(*s));
}

/// A permission entry as a Markdown list item.
pub open spec fn md_entry_line(e: (Seq<char>, PermissionLevel)) -> Seq<char> {
    "  - `"@ + e.0 + "`: `"@ + level_name(e.1) + "`\n"@
}

pub open spec fn md_entry_line_fn() -> spec_fn((Seq<char>, PermissionLevel)) -> Seq<char> {
    |e: (Seq<char>, PermissionLevel)| md_entry_line(e)
}

/// A key in backticks.
pub open spec fn ticked(k: Seq<char>) -> Seq<char> {
    "`"@ + k + "`"@
}

pub open spec fn ticked_fn() -> spec_fn(Seq<char>) -> Seq<char> {
    |k: Seq<char>| ticked(k)
}

/// The permissions section of a receipt's Markdown.
pub open spec fn md_permissions(r: GithubServiceReceiptView) -> Seq<char> {
    match r.permissions {
        Some(p) => "## Permissions\n\n"@ + "- Source: `"@ + source_name(p.source) + "`\n"@
            + "- Effective scopes:\n"@ + each(p.effective.entries, md_entry_line_fn()) + (if p.effective.unknown_keys.len() > 0 {
            "- Unknown keys: "@ + text::join_seq(
                p.effective.unknown_keys.map_values(ticked_fn()),
                ", "@,
            ) + "\n"@
        } else {
            Seq::empty()
        }) + "\n"@,
        None => Seq::empty(),
    }
}

fn push_md_permissions(out: &mut String, receipt: &GithubServiceReceipt)
    ensures
        final(out)@ == old(out)@ + md_permissions(receipt.deep_view()),
{
    let ghost start = out@;
    match &receipt.permissions {
        Some(p) => {
            out.append("## Permissions\n\n");
            out.append("- Source: `");
            out.append(source_str(p.source));
            out.append("`\n");
            out.append("- Effective scopes:\n");
            let ghost m0 = out@;
            let ghost ev = p.effective.entries.deep_view();
            let ghost f = md_entry_line_fn();
            assert(ev.take(0) =~= Seq::<(Seq<char>, PermissionLevel)>::empty());
            assert(out@ =~= m0 + each(ev.take(0), f));
            let mut i: usize = 0;
            while i < p.effective.entries.len()
                invariant
                    ev == p.effective.entries.deep_view(),
                    f == md_entry_line_fn(),
                    i <= ev.len(),
                    out@ == m0 + each(ev.take(i as int), f),
                decreases p.effective.entries.len() - i,
            {
                proof {
                    lemma_each_step(ev, f, i as int);
                }
                let ghost before = out@;
                out.append("  - `");
                out.append(p.effective.entries[i].0.as_str());
                out.append("`: `");
                out.append(p.effective.entries[i].1.as_str());
                out.append("`\n");
                assert(out@ =~= before + f(ev[i as int]));
                assert(out@ =~= m0 + each(ev.take(i + 1), f));
                i += 1;
            }
            assert(ev.take(i as int) =~= ev);
            let ghost m1 = out@;
            let ghost kv = p.effective.unknown_keys.deep_view();
            if p.effective.unknown_keys.len() > 0 {
                out.append("- Unknown keys: ");
                let mut parts: Vec<String> = Vec::new();
                let mut k: usize = 0;
                let ghost g = ticked_fn();
                assert(parts.deep_view() =~= kv.take(0).map_values(g));
                while k < p.effective.unknown_keys.len()
                    invariant
                        kv == p.effective.unknown_keys.deep_view(),
                        g == ticked_fn(),
                        k <= kv.len(),
                        parts.deep_view() == kv.take(k as int).map_values(g),
                    decreases p.effective.unknown_keys.len() - k,
                {
                    let item = text::cat3("`", p.effective.unknown_keys[k].as_str(), "`");
                    let ghost before = parts.deep_view();
                    parts.push(item);
                    assert(parts.deep_view() =~= before.push(item@));
                    assert(parts.deep_view() =~= kv.take(k + 1).map_values(g));
                    k += 1;
                }
                assert(kv.take(k as int) =~= kv);
                let joined = text::join(&parts, ", ");
                out.append(joined.as_str());
                out.append("\n");
            }
            assert(out@ =~= m1 + (if kv.len() > 0 {
                "- Unknown keys: "@ + text::join_seq(kv.map_values(ticked_fn()), ", "@)
                    + "\n"@
            } else {
                Seq::<char>::empty()
            }));
            out.append("\n");
        },
        None => {},
    }
    assert(out@ =~= start + md_permissions(receipt.deep_view()));
}

/// One row of a workflow's detection table.
pub open spec fn md_detection_row(job_id: Seq<char>, step_index: usize, d: ApiDetectionView) -> Seq<
    char,
> {
    "| `"@ + md_escape(job_id) + "` | "@ + decimal(step_index as nat) + " | `"@ + md_escape(d.method)
        + " "@ + md_escape(d.path) + "` | `"@ + compatibility_name(d.classification) + "` | `"@
        + bool_text(d.satisfied) + "` |\n"@
}

pub open spec fn md_detection_row_with(job_id: Seq<char>, step_index: usize) -> spec_fn(
    ApiDetectionView,
) -> Seq<char> {
    |d: ApiDetectionView| md_detection_row(job_id, step_index, d)
}

pub open spec fn md_step_rows_with(job_id: Seq<char>) -> spec_fn(StepApiReportView) -> Seq<char> {
    |s: StepApiReportView| each(s.detections, md_detection_row_with(job_id, s.step_index))
}

pub open spec fn md_job_rows_fn() -> spec_fn(JobApiReportView) -> Seq<char> {
    |j: JobApiReportView| each(j.steps, md_step_rows_with(j.job_id))
}

/// One workflow's Markdown: its heading, job count and detection table.
pub open spec fn md_workflow(w: WorkflowReportView) -> Seq<char> {
    "### `"@ + w.workflow + "`\n\n"@ + decimal(w.jobs.len()) + " jobs scanned.\n\n"@
        + "| Job | Step | Detection | Classification | Satisfied |\n"@
        + "| --- | --- | --- | --- | --- |\n"@ + each(w.jobs, md_job_rows_fn()) + "\n"@
}

pub open spec fn md_workflow_fn() -> spec_fn(WorkflowReportView) -> Seq<char> {
    |w: WorkflowReportView| md_workflow(w)
}

pub open spec fn md_workflows(r: GithubServiceReceiptView) -> Seq<char> {
    if r.workflows.len() > 0 {
        "## Workflows\n\n"@ + each(r.workflows, md_workflow_fn())
    } else {
        Seq::empty()
    }
}

fn push_md_detection_row(out: &mut String, job_id: &str, step_index: usize, d: &ApiDetection)
    ensures
        final(out)@ == old(out)@ + md_detection_row(job_id@, step_index, d.deep_view()),
{
    let ghost start = out@;
    out.append("| `");
    push_md_escaped(out, job_id);
    out.append("` | ");
    push_usize(out, step_index);
    out.append(" | `");
    push_md_escaped(out, d.method.as_str());
    out.append(" ");
    push_md_escaped(out, d.path.as_str());
    out.append("` | `");
    out.append(d.classification.as_str());
    out.append("` | `");
    out.append(bool_str(d.satisfied));
    out.append("` |\n");
    assert(out@ =~= start + md_detection_row(job_id@, step_index, d.deep_view()));
}

fn push_md_step_rows(out: &mut String, job_id: &str, s: &StepApiReport)
    ensures
        final(out)@ == old(out)@ + md_step_rows_with(job_id@)(s.deep_view()),
{
    let ghost start = out@;
    let ghost dv = s.detections.deep_view();
    let ghost f = md_detection_row_with(job_id@, s.step_index);
    assert(dv.take(0) =~= Seq::<ApiDetectionView>::empty());
    assert(out@ =~= start + each(dv.take(0), f));
    let mut i: usize = 0;
    while i < s.detections.len()
        invariant
            dv == s.detections.deep_view(),
            f == md_detection_row_with(job_id@, s.step_index),
            i <= dv.len(),
            out@ == start + each(dv.take(i as int), f),
        decreases s.detections.len() - i,
    {
        proof {
            lemma_each_step(dv, f, i as int);
        }
        push_md_detection_row(out, job_id, s.step_index, &s.detections[i]);
        assert(out@ =~= start + each(dv.take(i + 1), f));
        i += 1;
    }
    assert(dv.take(i as int) =~= dv);
}

fn push_md_job_rows(out: &mut String, j: &JobApiReport)
    ensures
        final(out)@ == old(out)@ + md_job_rows_fn()(j.deep_view()),
{
    let ghost start = out@;
    let ghost sv = j.steps.deep_view();
    let ghost f = md_step_rows_with(j.job_id@);
    assert(sv.take(0) =~= Seq::<StepApiReportView>::empty());
    assert(out@ =~= start + each(sv.take(0), f));
    let mut i: usize = 0;
    while i < j.steps.len()
        invariant
            sv == j.steps.deep_view(),
            f == md_step_rows_with(j.job_id@),
            i <= sv.len(),
            out@ == start + each(sv.take(i as int), f),
        decreases j.steps.len() - i,
    {
        proof {
            lemma_each_step(sv, f, i as int);
        }
        push_md_step_rows(out, j.job_id.as_str(), &j.steps[i]);
        assert(out@ =~= start + each(sv.take(i + 1), f));
        i += 1;
    }
    assert(sv.take(i as int) =~= sv);
}

fn push_md_workflow(out: &mut String, w: &WorkflowReport)
    ensures
        final(out)@ == old(out)@ + md_workflow(w.deep_view()),
{
    let ghost start = out@;
    out.append("### `");
    out.append(w.workflow.as_str());
    out.append("`\n\n");
    push_usize(out, w.jobs.len());
    out.append(" jobs scanned.\n\n");
    out.append("| Job | Step | Detection | Classification | Satisfied |\n");
    out.append("| --- | --- | --- | --- | --- |\n");
    let ghost mid = out@;
    let ghost jv = w.jobs.deep_view();
    let ghost f = md_job_rows_fn();
    assert(jv.take(0) =~= Seq::<JobApiReportView>::empty());
    assert(out@ =~= mid + each(jv.take(0), f));
    let mut i: usize = 0;
    while i < w.jobs.len()
        invariant
            jv == w.jobs.deep_view(),
            f == md_job_rows_fn(),
            i <= jv.len(),
            out@ == mid + each(jv.take(i as int), f),
        decreases w.jobs.len() - i,
    {
        proof {
            lemma_each_step(jv, f, i as int);
        }
        push_md_job_rows(out, &w.jobs[i]);
        assert(out@ =~= mid + each(jv.take(i + 1), f));
        i += 1;
    }
    assert(jv.take(i as int) =~= jv);
    out.append("\n");
    assert(out@ =~= start + md_workflow(w.deep_view()));
}

fn push_md_workflows(out: &mut String, receipt: &GithubServiceReceipt)
    ensures
        final(out)@ == old(out)@ + md_workflows(receipt.deep_view()),
{
    let ghost start = out@;
    if receipt.workflows.len() > 0 {
        out.append("## Workflows\n\n");
        let ghost mid = out@;
        let ghost wv = receipt.workflows.deep_view();
        let ghost f = md_workflow_fn();
        assert(wv.take(0) =~= Seq::<WorkflowReportView>::empty());
        assert(out@ =~= mid + each(wv.take(0), f));
        let mut i: usize = 0;
        while i < receipt.workflows.len()
            invariant
                wv == receipt.workflows.deep_view(),
                f == md_workflow_fn(),
                i <= wv.len(),
                out@ == mid + each(wv.take(i as int), f),
            decreases receipt.workflows.len() - i,
        {
            proof {
                lemma_each_step(wv, f, i as int);
            }
            push_md_workflow(out, &receipt.workflows[i]);
            assert(out@ =~= mid + each(wv.take(i + 1), f));
            i += 1;
        }
        assert(wv.take(i as int) =~= wv);
    }
    assert(out@ =~= start + md_workflows(receipt.deep_view()));
}

/// The catalog cell of a call row: the endpoint id, else the reason, else a dash.
pub open spec fn md_catalog_cell(c: CallReportView) -> Seq<char> {
    match c.catalog_match {
        Some(m) => "`"@ + m.endpoint_id + "`"@,
        None => match c.unsupported_reason {
            Some(reason) => "`"@ + reason + "`"@,
            None => "—"@,
        },
    }
}

/// One row of the calls table.
pub open spec fn md_call_row(c: CallReportView) -> Seq<char> {
    "| `"@ + md_escape(c.method) + "` | `"@ + md_escape(c.path) + "` | `"@ + compatibility_name(
        c.classification,
    ) + "` | `"@ + bool_text(c.satisfied) + "` | "@ + md_catalog_cell(c) + " |\n"@
}

pub open spec fn md_call_row_fn() -> spec_fn(CallReportView) -> Seq<char> {
    |c: CallReportView| md_call_row(c)
}

pub open spec fn md_calls(r: GithubServiceReceiptView) -> Seq<char> {
    if r.calls.len() > 0 {
        "## Calls\n\n"@ + "| Method | Path | Classification | Satisfied | Catalog |\n"@
            + "| --- | --- | --- | --- | --- |\n"@ + each(r.calls, md_call_row_fn()) + "\n"@
    } else {
        Seq::empty()
    }
}

fn push_md_call_row(out: &mut String, c: &CallReport)
    ensures
        final(out)@ == old(out)@ + md_call_row(c.deep_view()),
{
    let ghost start = out@;
    out.append("| `");
    push_md_escaped(out, c.method.as_str());
    out.append("` | `");
    push_md_escaped(out, c.path.as_str());
    out.append("` | `");
    out.append(c.classification.as_str());
    out.append("` | `");
    out.append(bool_str(c.satisfied));
    out.append("` | ");
    let ghost mid = out@;
    match &c.catalog_match {
        Some(m) => {
            out.append("`");
            out.append(m.endpoint_id.as_str());
            out.append("`");
        },
        None => match &c.unsupported_reason {
            Some(reason) => {
                out.append("`");
                out.append(reason.as_str());
                out.append("`");
            },
            None => out.append("—"),
        },
    }
    assert(out@ =~= mid + md_catalog_cell(c.deep_view()));
    out.append(" |\n");
    assert(out@ =~= start + md_call_row(c.deep_view()));
}

fn push_md_calls(out: &mut String, receipt: &GithubServiceReceipt)
    ensures
        final(out)@ == old(out)@ + md_calls(receipt.deep_view()),
{
    let ghost start = out@;
    if receipt.calls.len() > 0 {
        out.append("## Calls\n\n");
        out.append("| Method | Path | Classification | Satisfied | Catalog |\n");
        out.append("| --- | --- | --- | --- | --- |\n");
        let ghost mid = out@;
        let ghost cv = receipt.calls.deep_view();
        let ghost f = md_call_row_fn();
        assert(cv.take(0) =~= Seq::<CallReportView>::empty());
        assert(out@ =~= mid + each(cv.take(0), f));
        let mut i: usize = 0;
        while i < receipt.calls.len()
            invariant
                cv == receipt.calls.deep_view(),
                f == md_call_row_fn(),
                i <= cv.len(),
                out@ == mid + each(cv.take(i as int), f),
            decreases receipt.calls.len() - i,
        {
            proof {
                lemma_each_step(cv, f, i as int);
            }
            push_md_call_row(out, &receipt.calls[i]);
            assert(out@ =~= mid + each(cv.take(i + 1), f));
            i += 1;
        }
        assert(cv.take(i as int) =~= cv);
        out.append("\n");
    }
    assert(out@ =~= start + md_calls(receipt.deep_view()));
}

/// The OIDC section of a receipt's Markdown.
pub open spec fn md_oidc_section(o: OidcReportView) -> Seq<char> {
    "## OIDC\n\n"@ + "- Audience: `"@ + md_escape(o.audience) + "`\n- Signing mode: `"@ + md_escape(
        o.signing_mode,
    ) + "`\n- Compatibility: `"@ + compatibility_name(o.compatibility) + "`\n- iat / exp: `"@
        + signed_decimal(o.iat as int) + "` / `"@ + signed_decimal(o.exp as int)
        + "`\n- Token (truncated): `"@ + md_escape(first_chars(o.token, 40)) + "…`\n\n"@ + "> ⚠️ "@
        + md_escape(o.warning) + "\n\n"@
}

pub open spec fn md_oidc(r: GithubServiceReceiptView) -> Seq<char> {
    match r.oidc {
        Some(o) => md_oidc_section(o),
        None => Seq::empty(),
    }
}

fn push_md_oidc_section(out: &mut String, o: &OidcReport)
    ensures
        final(out)@ == old(out)@ + md_oidc_section(o.deep_view()),
{
    let ghost start = out@;
    out.append("## OIDC\n\n");
    out.append("- Audience: `");
    push_md_escaped(out, o.audience.as_str());
    out.append("`\n- Signing mode: `");
    push_md_escaped(out, o.signing_mode.as_str());
    out.append("`\n- Compatibility: `");
    out.append(o.compatibility.as_str());
    out.append("`\n- iat / exp: `");
    push_i64(out, o.iat);
    out.append("` / `");
    push_i64(out, o.exp);
    out.append("`\n- Token (truncated): `");
    let mut head = String::new();
    push_first_chars(&mut head, o.token.as_str(), 40);
    assert(head@ =~= first_chars(o.token@, 40));
    push_md_escaped(out, head.as_str());
    out.append("…`\n\n");
    out.append("> ⚠️ ");
    push_md_escaped(out, o.warning.as_str());
    out.append("\n\n");
    assert(out@ =~= start + md_oidc_section(o.deep_view()));
}

/// The gh-log section of a receipt's Markdown.
pub open spec fn md_gh_log(r: GithubServiceReceiptView) -> Seq<char> {
    match r.gh_log {
        Some(g) => "## gh-log Replay\n\n"@ + "- Tool: `"@ + md_escape(g.tool.name) + "` `"@
            + md_escape(g.tool.version) + "`\n- Calls: `"@ + decimal(g.call_count as nat)
            + "`\n- Redaction enforced: `"@ + bool_text(g.redaction_enforced) + "`\n\n"@,
        None => Seq::empty(),
    }
}

fn push_md_gh_log(out: &mut String, receipt: &GithubServiceReceipt)
    ensures
        final(out)@ == old(out)@ + md_gh_log(receipt.deep_view()),
{
    let ghost start = out@;
    match &receipt.gh_log {
        Some(g) => {
            out.append("## gh-log Replay\n\n");
            out.append("- Tool: `");
            push_md_escaped(out, g.tool.name.as_str());
            out.append("` `");
            push_md_escaped(out, g.tool.version.as_str());
            out.append("`\n- Calls: `");
            push_usize(out, g.call_count);
            out.append("`\n- Redaction enforced: `");
            out.append(bool_str(g.redaction_enforced));
            out.append("`\n\n");
        },
        None => {},
    }
    assert(out@ =~= start + md_gh_log(receipt.deep_view()));
}

/// A receipt-level check as a Markdown list item.
pub open spec fn md_check_line(c: CheckView) -> Seq<char> {
    "- `"@ + status_word(c.status) + "` `"@ + c.id + "` — "@ + md_escape(c.message) + "\n"@
}

pub open spec fn md_check_line_fn() -> spec_fn(CheckView) -> Seq<char> {
    |c: CheckView| md_check_line(c)
}

pub open spec fn md_checks(r: GithubServiceReceiptView) -> Seq<char> {
    if r.checks.len() > 0 {
        "## Checks\n\n"@ + each(r.checks, md_check_line_fn())
    } else {
        Seq::empty()
    }
}

fn push_md_checks(out: &mut String, receipt: &GithubServiceReceipt)
    ensures
        final(out)@ == old(out)@ + md_checks(receipt.deep_view()),
{
    let ghost start = out@;
    if receipt.checks.len() > 0 {
        out.append("## Checks\n\n");
        let ghost mid = out@;
        let ghost cv = receipt.checks.deep_view();
        let ghost f = md_check_line_fn();
        assert(cv.take(0) =~= Seq::<CheckView>::empty());
        assert(out@ =~= mid + each(cv.take(0), f));
        let mut i: usize = 0;
        while i < receipt.checks.len()
            invariant
                cv == receipt.checks.deep_view(),
                f == md_check_line_fn(),
                i <= cv.len(),
                out@ == mid + each(cv.take(i as int), f),
            decreases receipt.checks.len() - i,
        {
            proof {
                lemma_each_step(cv, f, i as int);
            }
            let ghost before = out@;
            let c = &receipt.checks[i];
            out.append("- `");
            out.append(status_word_str(c.status));
            out.append("` `");
            out.append(c.id.as_str());
            out.append("` — ");
            push_md_escaped(out, c.message.as_str());
            out.append("\n");
            assert(out@ =~= before + f(cv[i as int]));
            assert(out@ =~= mid + each(cv.take(i + 1), f));
            i += 1;
        }
        assert(cv.take(i as int) =~= cv);
    }
    assert(out@ =~= start + md_checks(receipt.deep_view()));
}

/// The Markdown rendering of a receipt: title and summary, then the
/// permissions, workflows, calls, OIDC, gh-log and checks sections.
pub open spec fn receipt_markdown(r: GithubServiceReceiptView) -> Seq<char> {
    md_title(r) + md_summary(r.summary) + md_permissions(r) + md_workflows(r) + md_calls(r)
        + md_oidc(r) + md_gh_log(r) + md_checks(r)
}

/// A receipt's text opens with its title line and then its summary line,
/// which gives the passed, warned, failed and skipped counts in that order,
/// each in decimal right before its word.
#[verifier::spinoff_prover]
pub proof fn law_text_summary_line(r: GithubServiceReceiptView)
    ensures
        starts_with_seq(
            receipt_text(r),
            r.tool.name + " "@ + r.tool.version + " ("@ + r.mode + ")\n"@ + "summary: "@ + decimal(
                r.summary.passed as nat,
            ) + " passed, "@ + decimal(r.summary.warnings as nat) + " warned, "@ + decimal(
                r.summary.failed as nat,
            ) + " failed, "@ + decimal(r.summary.skipped as nat) + " skipped"@ + "\n"@,
        ),
{
    let p = r.tool.name + " "@ + r.tool.version + " ("@ + r.mode + ")\n"@ + "summary: "@ + decimal(
        r.summary.passed as nat,
    ) + " passed, "@ + decimal(r.summary.warnings as nat) + " warned, "@ + decimal(
        r.summary.failed as nat,
    ) + " failed, "@ + decimal(r.summary.skipped as nat) + " skipped"@ + "\n"@;
    assert(text_head(r) =~= p);
    assert(text_head(r).take(p.len() as int) =~= p);
    let s1 = text_head(r) + text_permissions(r);
    lemma_starts_with_append(text_head(r), p, text_permissions(r));
    let s2 = s1 + each(r.workflows, workflow_text_fn());
    lemma_starts_with_append(s1, p, each(r.workflows, workflow_text_fn()));
    let s3 = s2 + text_calls(r);
    lemma_starts_with_append(s2, p, text_calls(r));
    let s4 = s3 + text_oidc(r);
    lemma_starts_with_append(s3, p, text_oidc(r));
    let s5 = s4 + text_gh_log(r);
    lemma_starts_with_append(s4, p, text_gh_log(r));
    lemma_starts_with_append(s5, p, text_checks(r));
}

/// A text that starts with `p` still does with more text after it.
proof fn lemma_starts_with_append(s: Seq<char>, p: Seq<char>, b: Seq<char>)
    requires
        starts_with_seq(s, p),
    ensures
        starts_with_seq(s + b, p),
{
    assert((s + b).take(p.len() as int) =~= s.take(p.len() as int));
}

/// A receipt's Markdown follows its title block with the summary line, which
/// gives the passed, warned, failed and skipped counts in that order, each in
/// decimal right before its word.
pub proof fn law_markdown_summary_line(r: GithubServiceReceiptView)
    ensures
        starts_with_seq(
            receipt_markdown(r).skip(md_title(r).len() as int),
            "- Summary: **"@ + decimal(r.summary.passed as nat) + " passed**, **"@ + decimal(
                r.summary.warnings as nat,
            ) + " warned**, **"@ + decimal(r.summary.failed as nat) + " failed**, **"@ + decimal(
                r.summary.skipped as nat,
            ) + " skipped**\n\n"@,
        ),
{
    let p = "- Summary: **"@ + decimal(r.summary.passed as nat) + " passed**, **"@ + decimal(
        r.summary.warnings as nat,
    ) + " warned**, **"@ + decimal(r.summary.failed as nat) + " failed**, **"@ + decimal(
        r.summary.skipped as nat,
    ) + " skipped**\n\n"@;
    let t = receipt_markdown(r).skip(md_title(r).len() as int);
    assert(md_summary(r.summary) =~= p);
    assert(t.take(p.len() as int) =~= p);
}

/// Renders a receipt as Markdown.
#[verifier::rlimit(50)]
pub fn render_markdown(receipt: &GithubServiceReceipt) -> (out: String)
    requires
        timestamp_valid(receipt.checked_at),
    ensures
        out@ == receipt_markdown(receipt.deep_view()),
{
    let ghost r = receipt.deep_view();
    let mut out = String::new();
    push_md_title(&mut out, receipt);
    let ghost s1 = md_title(r);
    assert(out@ =~= s1);
    push_md_summary(&mut out, &receipt.summary);
    let ghost s2 = s1 + md_summary(r.summary);
    assert(out@ =~= s2);
    push_md_permissions(&mut out, receipt);
    let ghost s3 = s2 + md_permissions(r);
    assert(out@ =~= s3);
    push_md_workflows(&mut out, receipt);
    let ghost s4 = s3 + md_workflows(r);
    assert(out@ =~= s4);
    push_md_calls(&mut out, receipt);
    let ghost s5 = s4 + md_calls(r);
    assert(out@ =~= s5);
    match &receipt.oidc {
        Some(o) => push_md_oidc_section(&mut out, o),
        None => {},
    }
    let ghost s6 = s5 + md_oidc(r);
    assert(out@ =~= s6);
    push_md_gh_log(&mut out, receipt);
    let ghost s7 = s6 + md_gh_log(r);
    assert(out@ =~= s7);
    push_md_checks(&mut out, receipt);
    assert(out@ =~= s7 + md_checks(r));
    out
}

} // verus!
