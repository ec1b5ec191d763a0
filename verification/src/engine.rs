//! Receipts: one per mode (workflow scan, permissions, single call, OIDC, gh-log replay).

use vstd::prelude::*;

use crate::call::{ClassifyOptions, ClassifyOptionsView, classify, classify_spec};
use crate::gh_log::{ReplayOptions, ReplayOptionsView, replay, replay_spec};
use crate::model::{
    CallReport, CallReportView, Check, CheckView, GhLogReportView, GithubServiceReceipt,
    GithubServiceReceiptView, LATEST_SECOND, OidcReport, OidcReportView, PermissionResolution,
    PermissionResolutionView, PermissionScope, PermissionSet, PermissionSetView, ReceiptSummary,
    SCHEMA_VERSION, Timestamp, ToolInfo, ToolInfoView, WorkflowReport, WorkflowReportView,
    CheckStatus, lemma_statuses_concat, lemma_summary_of, now_utc, push_statuses, statuses_of,
    summarizes, summary_of, summary_of_statuses, timestamp_valid,
};
use crate::oidc;
use crate::oidc::{IssueOptions, IssueOptionsView, effective_ttl, issue_at_spec};
use crate::permissions;
use crate::permissions::{resolve_spec, yaml_block_spec};
use crate::text;
use crate::value::{JsonValue, JsonView, YamlValue, copy_entries, mapping_get, mapping_get_spec, object_view};
use crate::{TOOL_NAME, TOOL_VERSION};

verus! {

/// This tool's name and version.
pub open spec fn tool_view() -> ToolInfoView {
    ToolInfoView { name: TOOL_NAME@, version: TOOL_VERSION@ }
}

fn tool_info() -> (t: ToolInfo)
    ensures
        t.deep_view() == tool_view(),
{
    ToolInfo { name: text::own(TOOL_NAME), version: text::own(TOOL_VERSION) }
}

/// A receipt of the given mode with nothing in it but what is given.
pub open spec fn receipt_spec(
    mode: Seq<char>,
    checked_at: Timestamp,
    summary: ReceiptSummary,
) -> GithubServiceReceiptView {
    GithubServiceReceiptView {
        schema_version: SCHEMA_VERSION,
        tool: tool_view(),
        checked_at,
        mode,
        summary,
        permissions: None,
        workflows: Seq::empty(),
        calls: Seq::empty(),
        oidc: None,
        gh_log: None,
        checks: Seq::empty(),
    }
}

/// Field-wise totals of the workflows' summaries.
pub open spec fn summaries_total(workflows: Seq<WorkflowReportView>) -> (int, int, int, int)
    decreases workflows.len(),
{
    if workflows.len() == 0 {
        (0, 0, 0, 0)
    } else {
        let t = summaries_total(workflows.drop_last());
        let s = workflows.last().summary;
        (t.0 + s.passed, t.1 + s.warnings, t.2 + s.failed, t.3 + s.skipped)
    }
}

pub open spec fn totals_fit(t: (int, int, int, int)) -> bool {
    t.0 <= usize::MAX && t.1 <= usize::MAX && t.2 <= usize::MAX && t.3 <= usize::MAX
}

/// The receipt of a workflow scan: the workflows, and their summaries added up.
pub open spec fn workflows_receipt_spec(
    workflows: Seq<WorkflowReportView>,
    checked_at: Timestamp,
) -> GithubServiceReceiptView {
    let t = summaries_total(workflows);
    GithubServiceReceiptView {
        workflows,
        ..receipt_spec(
            "check-workflow"@,
            checked_at,
            ReceiptSummary {
                passed: t.0 as usize,
                warnings: t.1 as usize,
                failed: t.2 as usize,
                skipped: t.3 as usize,
            },
        )
    }
}

/// The receipt of a workflow scan, checked at `checked_at`.
pub fn workflows_receipt_at(workflows: Vec<WorkflowReport>, checked_at: Timestamp) -> (r:
    GithubServiceReceipt)
    requires
        totals_fit(summaries_total(workflows.deep_view())),
    ensures
        r.deep_view() == workflows_receipt_spec(workflows.deep_view(), checked_at),
{
    let ghost wv = workflows.deep_view();
    let mut summary = ReceiptSummary { passed: 0, warnings: 0, failed: 0, skipped: 0 };
    let mut i: usize = 0;
    while i < workflows.len()
        invariant
            wv == workflows.deep_view(),
            totals_fit(summaries_total(wv)),
            i <= wv.len(),
            summaries_total(wv.take(i as int)) == (
                summary.passed as int,
                summary.warnings as int,
                summary.failed as int,
                summary.skipped as int,
            ),
        decreases workflows.len() - i,
    {
        assert(wv.take(i + 1).drop_last() =~= wv.take(i as int));
        proof {
            lemma_totals_prefix(wv, i + 1);
        }
        summary.add(&workflows[i].summary);
        i += 1;
    }
    assert(wv.take(i as int) =~= wv);
    let r = GithubServiceReceipt {
        schema_version: SCHEMA_VERSION,
        tool: tool_info(),
        checked_at,
        mode: text::own("check-workflow"),
        summary,
        permissions: None,
        workflows,
        calls: Vec::new(),
        oidc: None,
        gh_log: None,
        checks: Vec::new(),
    };
    assert(r.deep_view() =~= workflows_receipt_spec(wv, checked_at));
    r
}

/// A prefix's totals are at most the whole's.
proof fn lemma_totals_prefix(workflows: Seq<WorkflowReportView>, k: int)
    requires
        0 <= k <= workflows.len(),
    ensures
        summaries_total(workflows.take(k)).0 <= summaries_total(workflows).0,
        summaries_total(workflows.take(k)).1 <= summaries_total(workflows).1,
        summaries_total(workflows.take(k)).2 <= summaries_total(workflows).2,
        summaries_total(workflows.take(k)).3 <= summaries_total(workflows).3,
    decreases workflows.len() - k,
{
    if k < workflows.len() {
        lemma_totals_prefix(workflows, k + 1);
        assert(workflows.take(k + 1).drop_last() =~= workflows.take(k));
    } else {
        assert(workflows.take(k) =~= workflows);
    }
}

/// The receipt of a workflow scan, checked now.
pub fn check_workflows(workflows: Vec<WorkflowReport>) -> (r: GithubServiceReceipt)
    requires
        totals_fit(summaries_total(workflows.deep_view())),
    ensures
        r.deep_view() == workflows_receipt_spec(workflows.deep_view(), r.checked_at),
        timestamp_valid(r.checked_at),
{
    workflows_receipt_at(workflows, now_utc())
}

/// Why the permissions of a workflow document cannot be resolved.
#[derive(Debug)]
pub enum PermissionsCommandError {
    RootNotMapping,
    NoJobs,
    JobNotFound(String),
}

impl PermissionsCommandError {
    /// The error's message.
    pub fn message(&self) -> (m: String)
        ensures
            m@ == permissions_error_message(self.deep_view()),
    {
        match self {
            PermissionsCommandError::RootNotMapping => text::own(
                "workflow root must be a YAML mapping",
            ),
            PermissionsCommandError::NoJobs => text::own("workflow has no `jobs:` mapping"),
            PermissionsCommandError::JobNotFound(job) => text::cat3(
                "job '",
                job.as_str(),
                "' not found in workflow",
            ),
        }
    }
}

#[verifier::ext_equal]
pub enum PermissionsCommandErrorView {
    RootNotMapping,
    NoJobs,
    JobNotFound(Seq<char>),
}

impl DeepView for PermissionsCommandError {
    type V = PermissionsCommandErrorView;

    open spec fn deep_view(&self) -> PermissionsCommandErrorView {
        match self {
            PermissionsCommandError::RootNotMapping => PermissionsCommandErrorView::RootNotMapping,
            PermissionsCommandError::NoJobs => PermissionsCommandErrorView::NoJobs,
            PermissionsCommandError::JobNotFound(j) => PermissionsCommandErrorView::JobNotFound(
                j@,
            ),
        }
    }
}

pub open spec fn permissions_error_message(e: PermissionsCommandErrorView) -> Seq<char> {
    match e {
        PermissionsCommandErrorView::RootNotMapping => "workflow root must be a YAML mapping"@,
        PermissionsCommandErrorView::NoJobs => "workflow has no `jobs:` mapping"@,
        PermissionsCommandErrorView::JobNotFound(job) => "job '"@ + job
            + "' not found in workflow"@,
    }
}

/// The job-level permissions block and its checks, or why the job cannot be found.
pub open spec fn job_block_spec(
    root: Seq<(YamlValue, YamlValue)>,
    job: Seq<char>,
) -> Result<(Option<PermissionSetView>, Seq<CheckView>), PermissionsCommandErrorView> {
    match mapping_get_spec(root, "jobs"@) {
        Some(YamlValue::Mapping(jobs)) => match mapping_get_spec(jobs@, job) {
            Some(YamlValue::Mapping(job_map)) => Ok(
                yaml_block_spec(mapping_get_spec(job_map@, "permissions"@)),
            ),
            _ => Err(PermissionsCommandErrorView::JobNotFound(job)),
        },
        _ => Err(PermissionsCommandErrorView::NoJobs),
    }
}

/// The permissions receipt of a workflow document: the workflow block,
/// resolved for the workflow or, given a job id, for that job.
pub open spec fn permissions_receipt_spec(
    root: YamlValue,
    job: Option<Seq<char>>,
    checked_at: Timestamp,
) -> Result<GithubServiceReceiptView, PermissionsCommandErrorView> {
    match root {
        YamlValue::Mapping(m) => {
            let (wp, wc) = yaml_block_spec(mapping_get_spec(m@, "permissions"@));
            let block = match job {
                Some(j) => match job_block_spec(m@, j) {
                    Ok((jp, jc)) => Ok((jp, wc + jc, PermissionScope::Job)),
                    Err(e) => Err(e),
                },
                None => Ok((None, wc, PermissionScope::Workflow)),
            };
            match block {
                Ok((jp, checks, scope)) => {
                    let resolution = resolve_spec(wp, jp, scope);
                    Ok(
                        GithubServiceReceiptView {
                            permissions: Some(resolution),
                            checks,
                            ..receipt_spec(
                                "permissions"@,
                                checked_at,
                                summary_of(checks + resolution.checks),
                            )
                        },
                    )
                },
                Err(e) => Err(e),
            }
        },
        _ => Err(PermissionsCommandErrorView::RootNotMapping),
    }
}

/// What the summary of a permissions receipt counts: the block checks, then
/// the resolution's checks (nothing when the document is refused).
pub open spec fn permissions_counted(root: YamlValue, job: Option<Seq<char>>) -> Seq<CheckView> {
    match permissions_receipt_spec(root, job, Timestamp { seconds: 0, nanos: 0 }) {
        Ok(v) => v.checks + v.permissions->0.checks,
        Err(_) => Seq::empty(),
    }
}

/// The view of an optional string slice.
pub open spec fn opt_str_view(s: Option<&str>) -> Option<Seq<char>> {
    match s {
        Some(t) => Some(t@),
        None => None,
    }
}

/// The permissions receipt of a parsed workflow document, checked at `checked_at`.
pub fn permissions_receipt_at(root: &YamlValue, job: Option<&str>, checked_at: Timestamp) -> (r:
    Result<GithubServiceReceipt, PermissionsCommandError>)
    ensures
        match permissions_receipt_spec(*root, opt_str_view(job), checked_at) {
            Ok(v) => r matches Ok(receipt) && receipt.deep_view() == v,
            Err(e) => r matches Err(err) && err.deep_view() == e,
        },
{
    let YamlValue::Mapping(m) = root else {
        return Err(PermissionsCommandError::RootNotMapping);
    };
    let (workflow_permissions, mut all_checks) = permissions::parse_yaml_block(
        mapping_get(m, "permissions"),
    );
    let ghost wc = all_checks.deep_view();
    let (job_permissions, scope) = match job {
        Some(job_id) => {
            let Some(YamlValue::Mapping(jobs_map)) = mapping_get(m, "jobs") else {
                return Err(PermissionsCommandError::NoJobs);
            };
            let Some(YamlValue::Mapping(job_map)) = mapping_get(jobs_map, job_id) else {
                return Err(PermissionsCommandError::JobNotFound(text::own(job_id)));
            };
            let (job_perms, mut job_checks) = permissions::parse_yaml_block(
                mapping_get(job_map, "permissions"),
            );
            let ghost jc = job_checks.deep_view();
            all_checks.append(&mut job_checks);
            assert(all_checks.deep_view() =~= wc + jc);
            (job_perms, PermissionScope::Job)
        },
        None => (None, PermissionScope::Workflow),
    };
    let resolution = permissions::resolve(workflow_permissions, job_permissions, scope);
    assert(all_checks.deep_view() + resolution.checks.deep_view() == permissions_counted(
        *root,
        opt_str_view(job),
    ));
    let mut statuses: Vec<CheckStatus> = Vec::new();
    push_statuses(&mut statuses, all_checks.as_slice());
    push_statuses(&mut statuses, resolution.checks.as_slice());
    proof {
        assert(statuses_of(Seq::<CheckView>::empty()) =~= Seq::<CheckStatus>::empty());
        lemma_statuses_concat(all_checks.deep_view(), resolution.checks.deep_view());
    }
    let summary = summary_of_statuses(
        &statuses,
        Ghost(all_checks.deep_view() + resolution.checks.deep_view()),
    );
    proof {
        lemma_summary_of(summary, all_checks.deep_view() + resolution.checks.deep_view());
    }
    let r = GithubServiceReceipt {
        schema_version: SCHEMA_VERSION,
        tool: tool_info(),
        checked_at,
        mode: text::own("permissions"),
        summary,
        permissions: Some(resolution),
        workflows: Vec::new(),
        calls: Vec::new(),
        oidc: None,
        gh_log: None,
        checks: all_checks,
    };
    assert(r.deep_view() =~= permissions_receipt_spec(*root, opt_str_view(job), checked_at)->Ok_0);
    Ok(r)
}

/// The permissions receipt of a parsed workflow document, checked now.
pub fn permissions_command(root: &YamlValue, job: Option<&str>) -> (r: Result<
    GithubServiceReceipt,
    PermissionsCommandError,
>)
    ensures
        match r {
            Ok(receipt) => timestamp_valid(receipt.checked_at) && permissions_receipt_spec(
                *root,
                opt_str_view(job),
                receipt.checked_at,
            ) == Ok::<GithubServiceReceiptView, PermissionsCommandErrorView>(receipt.deep_view()),
            Err(e) => exists|t: Timestamp| #[trigger]
                permissions_receipt_spec(*root, opt_str_view(job), t) == Err::<
                    GithubServiceReceiptView,
                    PermissionsCommandErrorView,
                >(e.deep_view()),
        },
{
    let checked_at = now_utc();
    permissions_receipt_at(root, job, checked_at)
}

#[derive(Debug)]
pub struct CallOptions {
    pub method: String,
    pub path: String,
    pub url: Option<String>,
    pub permissions: Option<PermissionSet>,
    pub origin: Option<String>,
}

#[verifier::ext_equal]
pub struct CallOptionsView {
    pub method: Seq<char>,
    pub path: Seq<char>,
    pub url: Option<Seq<char>>,
    pub permissions: Option<PermissionSetView>,
    pub origin: Option<Seq<char>>,
}

impl DeepView for CallOptions {
    type V = CallOptionsView;

    open spec fn deep_view(&self) -> CallOptionsView {
        CallOptionsView {
            method: self.method@,
            path: self.path@,
            url: self.url.deep_view(),
            permissions: self.permissions.deep_view(),
            origin: self.origin.deep_view(),
        }
    }
}

/// The receipt of one classified call.
pub open spec fn call_receipt_spec(o: CallOptionsView, checked_at: Timestamp) -> GithubServiceReceiptView {
    let report = classify_spec(
        ClassifyOptionsView {
            method: o.method,
            path: o.path,
            url: o.url,
            origin: o.origin,
            permissions: o.permissions,
        },
    );
    GithubServiceReceiptView {
        calls: seq![report],
        ..receipt_spec("call"@, checked_at, summary_of(report.checks))
    }
}

/// The receipt of one classified call, checked at `checked_at`.
pub fn classify_call_at(options: &CallOptions, checked_at: Timestamp) -> (r: GithubServiceReceipt)
    ensures
        r.deep_view() == call_receipt_spec(options.deep_view(), checked_at),
{
    let report = classify(
        ClassifyOptions {
            method: options.method.clone(),
            path: options.path.clone(),
            url: text::copy_opt(&options.url),
            origin: text::copy_opt(&options.origin),
            permissions: crate::model::copy_opt_set(&options.permissions),
        },
    );
    let summary = ReceiptSummary::from_checks(report.checks.as_slice());
    proof {
        crate::model::lemma_count_le_len(report.checks.deep_view(), crate::model::CheckStatus::Pass);
        lemma_summary_of(summary, report.checks.deep_view());
    }
    let mut calls: Vec<CallReport> = Vec::new();
    calls.push(report);
    let r = GithubServiceReceipt {
        schema_version: SCHEMA_VERSION,
        tool: tool_info(),
        checked_at,
        mode: text::own("call"),
        summary,
        permissions: None,
        workflows: Vec::new(),
        calls,
        oidc: None,
        gh_log: None,
        checks: Vec::new(),
    };
    assert(r.deep_view() =~= call_receipt_spec(options.deep_view(), checked_at));
    r
}

/// The receipt of one classified call, checked now.
pub fn classify_call(options: &CallOptions) -> (r: GithubServiceReceipt)
    ensures
        r.deep_view() == call_receipt_spec(options.deep_view(), r.checked_at),
        timestamp_valid(r.checked_at),
{
    classify_call_at(options, now_utc())
}

#[derive(Debug)]
pub struct OidcOptions {
    pub audience: String,
    pub repository: String,
    pub git_ref: String,
    pub sha: String,
    pub workflow: String,
    pub job: String,
    pub run_id: String,
    pub job_workflow_ref: Option<String>,
    pub permissions: Option<PermissionSet>,
    pub ttl_seconds: Option<i64>,
    /// Claims added after the standard ones, in order.
    pub extra_claims: Vec<(String, JsonValue)>,
}

#[verifier::ext_equal]
pub struct OidcOptionsView {
    pub audience: Seq<char>,
    pub repository: Seq<char>,
    pub git_ref: Seq<char>,
    pub sha: Seq<char>,
    pub workflow: Seq<char>,
    pub job: Seq<char>,
    pub run_id: Seq<char>,
    pub job_workflow_ref: Option<Seq<char>>,
    pub permissions: Option<PermissionSetView>,
    pub ttl_seconds: Option<i64>,
    pub extra_claims: Seq<(Seq<char>, JsonView)>,
}

impl DeepView for OidcOptions {
    type V = OidcOptionsView;

    open spec fn deep_view(&self) -> OidcOptionsView {
        OidcOptionsView {
            audience: self.audience@,
            repository: self.repository@,
            git_ref: self.git_ref@,
            sha: self.sha@,
            workflow: self.workflow@,
            job: self.job@,
            run_id: self.run_id@,
            job_workflow_ref: self.job_workflow_ref.deep_view(),
            permissions: self.permissions.deep_view(),
            ttl_seconds: self.ttl_seconds,
            extra_claims: object_view(self.extra_claims@),
        }
    }
}

/// The issue options of an OIDC request: its fields, with no fixed instant.
pub open spec fn issue_options_of(o: OidcOptionsView) -> IssueOptionsView {
    IssueOptionsView {
        audience: o.audience,
        repository: o.repository,
        git_ref: o.git_ref,
        sha: o.sha,
        workflow: o.workflow,
        job: o.job,
        run_id: o.run_id,
        job_workflow_ref: o.job_workflow_ref,
        permissions: o.permissions,
        now: None,
        ttl_seconds: o.ttl_seconds,
        extra_claims: o.extra_claims,
    }
}

/// The receipt of an issued token.
pub open spec fn oidc_receipt_spec(report: OidcReportView, checked_at: Timestamp) -> GithubServiceReceiptView {
    GithubServiceReceiptView {
        oidc: Some(report),
        ..receipt_spec("oidc"@, checked_at, summary_of(report.checks))
    }
}

/// The receipt of an issued token, checked at `checked_at`.
pub fn oidc_receipt(report: OidcReport, checked_at: Timestamp) -> (r: GithubServiceReceipt)
    ensures
        r.deep_view() == oidc_receipt_spec(report.deep_view(), checked_at),
{
    let summary = ReceiptSummary::from_checks(report.checks.as_slice());
    proof {
        crate::model::lemma_count_le_len(report.checks.deep_view(), crate::model::CheckStatus::Pass);
        lemma_summary_of(summary, report.checks.deep_view());
    }
    let r = GithubServiceReceipt {
        schema_version: SCHEMA_VERSION,
        tool: tool_info(),
        checked_at,
        mode: text::own("oidc"),
        summary,
        permissions: None,
        workflows: Vec::new(),
        calls: Vec::new(),
        oidc: Some(report),
        gh_log: None,
        checks: Vec::new(),
    };
    assert(r.deep_view() =~= oidc_receipt_spec(report.deep_view(), checked_at));
    r
}

/// Issues a stub-local token now and wraps it in a receipt. `None` when the
/// expiry would not fit in `i64` seconds.
pub fn issue_oidc(options: &OidcOptions) -> (r: Option<GithubServiceReceipt>)
    ensures
        r matches Some(receipt) ==> timestamp_valid(receipt.checked_at) && exists|t: Timestamp|
            timestamp_valid(t) && receipt.deep_view() == oidc_receipt_spec(
                #[trigger] issue_at_spec(issue_options_of(options.deep_view()), t),
                receipt.checked_at,
            ),
        effective_ttl(issue_options_of(options.deep_view())) <= i64::MAX - LATEST_SECOND ==> r is Some,
        r matches Some(receipt) ==> receipt.oidc matches Some(report) && oidc::stub_signed(
            report.token@,
        ),
{
    let issue_options = IssueOptions {
        audience: options.audience.clone(),
        repository: options.repository.clone(),
        git_ref: options.git_ref.clone(),
        sha: options.sha.clone(),
        workflow: options.workflow.clone(),
        job: options.job.clone(),
        run_id: options.run_id.clone(),
        job_workflow_ref: text::copy_opt(&options.job_workflow_ref),
        permissions: crate::model::copy_opt_set(&options.permissions),
        now: None,
        ttl_seconds: options.ttl_seconds,
        extra_claims: copy_entries(&options.extra_claims),
    };
    assert(issue_options.deep_view() =~= issue_options_of(options.deep_view()));
    let report = match oidc::issue(issue_options) {
        Some(report) => report,
        None => {
            return None;
        },
    };
    let checked_at = now_utc();
    Some(oidc_receipt(report, checked_at))
}

/// The receipt of a gh-log replay.
pub open spec fn gh_log_receipt_spec(report: GhLogReportView, checked_at: Timestamp) -> GithubServiceReceiptView {
    GithubServiceReceiptView {
        gh_log: Some(report),
        ..receipt_spec("gh-log"@, checked_at, report.summary)
    }
}

/// Replays a checked gh-log bundle and wraps the report in a receipt checked at `checked_at`.
pub fn replay_gh_log_at(options: ReplayOptions, checked_at: Timestamp) -> (r: GithubServiceReceipt)
    ensures
        r.deep_view() == gh_log_receipt_spec(replay_spec(options.deep_view()), checked_at),
{
    let report = replay(options);
    let summary = report.summary;
    let r = GithubServiceReceipt {
        schema_version: SCHEMA_VERSION,
        tool: tool_info(),
        checked_at,
        mode: text::own("gh-log"),
        summary,
        permissions: None,
        workflows: Vec::new(),
        calls: Vec::new(),
        oidc: None,
        gh_log: Some(report),
        checks: Vec::new(),
    };
    r
}

/// Replays a checked gh-log bundle and wraps the report in a receipt checked now.
pub fn replay_gh_log(options: ReplayOptions) -> (r: GithubServiceReceipt)
    ensures
        r.deep_view() == gh_log_receipt_spec(replay_spec(options.deep_view()), r.checked_at),
        timestamp_valid(r.checked_at),
{
    replay_gh_log_at(options, now_utc())
}

/// Gives `call` the location `location` when it has no origin yet.
pub fn enrich_call_with_location(call: &mut CallReport, location: String)
    ensures
        final(call).deep_view() == (if old(call).origin is None {
            CallReportView { origin: Some(location@), ..old(call).deep_view() }
        } else {
            old(call).deep_view()
        }),
{
    if call.origin.is_none() {
        call.origin = Some(location);
    }
}

/// Whether a receipt fails its command: some check failed, or, under
/// `strict`, some check warned.
pub fn receipt_fails(summary: &ReceiptSummary, strict: bool) -> (r: bool)
    ensures
        r == (summary.failed > 0 || (strict && summary.warnings > 0)),
{
    summary.failed > 0 || (strict && summary.warnings > 0)
}

} // verus!
