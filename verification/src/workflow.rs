//! Detection of GitHub API usage in workflow steps and scanning of workflow
//! documents against their resolved permissions.

use vstd::prelude::*;

use crate::call::{ClassifyOptions, ClassifyOptionsView, classify, classify_spec};
use crate::catalog::mutating_method;
use crate::model::{
    ApiDetection, ApiDetectionOrigin, ApiDetectionView, Check, CheckStatus, CheckView,
    Compatibility, JobApiReport, JobApiReportView, PermissionScope, PermissionSet,
    PermissionSetView, ReceiptSummary, StepApiReport, StepApiReportView, WorkflowReport,
    WorkflowReportView, check_of, copy_opt_set, lemma_statuses_concat, lemma_summary_of,
    push_statuses, statuses_of, summarizes, summary_of, summary_of_statuses,
};
use crate::permissions;
use crate::permissions::{resolve_spec, yaml_block_spec};
use crate::text;
use crate::text::{
    concat_all, decimal, eq_ignore_case_seq, join_seq, lines_seq, split_once_seq,
    starts_with_seq, trim_seq, uppercase_of,
};
use crate::value::{YamlValue, mapping_get, mapping_get_spec};

verus! {

/// The API hosts whose URLs `curl` detection recognizes.
pub open spec fn is_github_api_host(host: Seq<char>) -> bool {
    eq_ignore_case_seq(host, "api.github.com"@) || eq_ignore_case_seq(host, "uploads.github.com"@)
}

/// A detection before classification: no catalog match, not satisfied, nothing missing.
pub open spec fn detection_view(
    origin: ApiDetectionOrigin,
    label: Seq<char>,
    method: Seq<char>,
    path: Seq<char>,
    classification: Compatibility,
    unsupported_reason: Option<Seq<char>>,
) -> ApiDetectionView {
    ApiDetectionView {
        origin,
        label,
        method,
        path,
        classification,
        catalog_match: None,
        satisfied: false,
        missing_permissions: Seq::empty(),
        unsupported_reason,
    }
}

/// A `gh` CLI detection with a simulated classification and no reason.
pub open spec fn gh_detection(label: Seq<char>, method: Seq<char>, path: Seq<char>) -> ApiDetectionView {
    detection_view(ApiDetectionOrigin::GhCli, label, method, path, Compatibility::Simulated, None)
}

fn new_detection(
    origin: ApiDetectionOrigin,
    label: String,
    method: &str,
    path: &str,
    classification: Compatibility,
    unsupported_reason: Option<String>,
) -> (d: ApiDetection)
    ensures
        d.deep_view() == detection_view(
            origin,
            label@,
            method@,
            path@,
            classification,
            unsupported_reason.deep_view(),
        ),
{
    let d = ApiDetection {
        origin,
        label,
        method: text::own(method),
        path: text::own(path),
        classification,
        catalog_match: None,
        satisfied: false,
        missing_permissions: Vec::new(),
        unsupported_reason,
    };
    assert(d.deep_view() =~= detection_view(
        origin,
        label@,
        method@,
        path@,
        classification,
        unsupported_reason.deep_view(),
    ));
    d
}

fn gh_cli(label: String, method: &str, path: &str) -> (d: ApiDetection)
    ensures
        d.deep_view() == gh_detection(label@, method@, path@),
{
    new_detection(ApiDetectionOrigin::GhCli, label, method, path, Compatibility::Simulated, None)
}

// ---------------------------------------------------------------------------
// Actions referenced by `uses:`
// ---------------------------------------------------------------------------

/// The calls an action reference implies.
pub open spec fn action_spec(uses: Seq<char>, location: Seq<char>) -> Seq<ApiDetectionView> {
    let slug = match split_once_seq(uses, '@') {
        Some((s, _)) => s,
        None => uses,
    };
    let prefix = "uses "@ + uses;
    if slug == "softprops/action-gh-release"@ || slug == "ncipollo/release-action"@ {
        seq![
            detection_view(
                ApiDetectionOrigin::ReleaseAction,
                prefix + " (create release at "@ + location + ")"@,
                "POST"@,
                "/repos/{owner}/{repo}/releases"@,
                Compatibility::Simulated,
                None,
            ),
            detection_view(
                ApiDetectionOrigin::ReleaseAction,
                prefix + " (upload assets at "@ + location + ")"@,
                "POST"@,
                "/repos/{owner}/{repo}/releases/{id}/assets"@,
                Compatibility::Simulated,
                None,
            ),
        ]
    } else if slug == "actions/github-script"@ {
        seq![
            detection_view(
                ApiDetectionOrigin::GithubScript,
                prefix + " (generic Octokit surface at "@ + location + ")"@,
                "GET"@,
                "/rate_limit"@,
                Compatibility::Exact,
                None,
            ),
        ]
    } else if slug == "aws-actions/configure-aws-credentials"@ || slug
        == "google-github-actions/auth"@ || slug == "azure/login"@ {
        seq![
            detection_view(
                ApiDetectionOrigin::OidcAction,
                prefix + " (OIDC exchange at "@ + location + ")"@,
                "GET"@,
                "/rate_limit"@,
                Compatibility::Simulated,
                Some(OIDC_EXCHANGE_REASON@),
            ),
        ]
    } else {
        Seq::empty()
    }
}

/// The slug of an action reference: the part before its first `@`.
pub open spec fn action_slug(uses: Seq<char>) -> Seq<char> {
    match split_once_seq(uses, '@') {
        Some((s, _)) => s,
        None => uses,
    }
}

/// A release action (`softprops/action-gh-release`, `ncipollo/release-action`),
/// at any version, creates a release and uploads its assets: two calls, each
/// with a state-changing method; `actions/github-script` and the cloud OIDC
/// login actions make no state-changing call; any other action implies none.
pub proof fn law_release_actions_write(uses: Seq<char>, location: Seq<char>)
    ensures
        action_slug(uses) == "softprops/action-gh-release"@ || action_slug(uses)
            == "ncipollo/release-action"@ ==> action_spec(uses, location).len() == 2 && forall|i: int|
            0 <= i < 2 ==> mutating_method(#[trigger] action_spec(uses, location)[i].method)
                && action_spec(uses, location)[i].origin == ApiDetectionOrigin::ReleaseAction,
        forall|i: int|
            0 <= i < action_spec(uses, location).len() && !(action_slug(uses)
                == "softprops/action-gh-release"@ || action_slug(uses) == "ncipollo/release-action"@)
                ==> (#[trigger] action_spec(uses, location)[i]).method == "GET"@,
{
    reveal_strlit("GET");
    reveal_strlit("POST");
}

pub const OIDC_EXCHANGE_REASON: &'static str = "oidc.cloud_exchange: federated OIDC exchange happens outside the ci-forge shim";

/// The calls that an action reference in `uses:` implies.
pub fn detect_from_action(uses: &str, location: &str) -> (r: Vec<ApiDetection>)
    ensures
        r.deep_view() == action_spec(uses@, location@),
{
    let slug = match text::split_once(uses, '@') {
        Some((slug, _)) => slug,
        None => text::own(uses),
    };
    let label_prefix = text::cat2("uses ", uses);
    let s = slug.as_str();
    let mut detections: Vec<ApiDetection> = Vec::new();
    if text::str_eq(s, "softprops/action-gh-release") || text::str_eq(s, "ncipollo/release-action") {
        detections.push(
            new_detection(
                ApiDetectionOrigin::ReleaseAction,
                text::cat4(label_prefix.as_str(), " (create release at ", location, ")"),
                "POST",
                "/repos/{owner}/{repo}/releases",
                Compatibility::Simulated,
                None,
            ),
        );
        detections.push(
            new_detection(
                ApiDetectionOrigin::ReleaseAction,
                text::cat4(label_prefix.as_str(), " (upload assets at ", location, ")"),
                "POST",
                "/repos/{owner}/{repo}/releases/{id}/assets",
                Compatibility::Simulated,
                None,
            ),
        );
    } else if text::str_eq(s, "actions/github-script") {
        detections.push(
            new_detection(
                ApiDetectionOrigin::GithubScript,
                text::cat4(label_prefix.as_str(), " (generic Octokit surface at ", location, ")"),
                "GET",
                "/rate_limit",
                Compatibility::Exact,
                None,
            ),
        );
    } else if text::str_eq(s, "aws-actions/configure-aws-credentials") || text::str_eq(
        s,
        "google-github-actions/auth",
    ) || text::str_eq(s, "azure/login") {
        detections.push(
            new_detection(
                ApiDetectionOrigin::OidcAction,
                text::cat4(label_prefix.as_str(), " (OIDC exchange at ", location, ")"),
                "GET",
                "/rate_limit",
                Compatibility::Simulated,
                Some(text::own(OIDC_EXCHANGE_REASON)),
            ),
        );
    }
    assert(detections.deep_view() =~= action_spec(uses@, location@));
    detections
}

// ---------------------------------------------------------------------------
// `gh` subcommands
// ---------------------------------------------------------------------------

/// The second positional word, or the empty word when there is none.
pub open spec fn sub_of(positional: Seq<Seq<char>>) -> Seq<char> {
    if positional.len() > 1 {
        positional[1]
    } else {
        Seq::empty()
    }
}

pub open spec fn gh_label(group: Seq<char>, verb: Seq<char>, location: Seq<char>) -> Seq<char> {
    "gh "@ + group + " "@ + verb + " at "@ + location
}

pub open spec fn gh_release_spec(positional: Seq<Seq<char>>, location: Seq<char>) -> Seq<
    ApiDetectionView,
> {
    let sub = sub_of(positional);
    let g = "release"@;
    if sub == "create"@ {
        seq![
            gh_detection(gh_label(g, "create"@, location), "POST"@, "/repos/{owner}/{repo}/releases"@),
            gh_detection(
                gh_label(g, "create (asset upload)"@, location),
                "POST"@,
                "/repos/{owner}/{repo}/releases/{id}/assets"@,
            ),
        ]
    } else if sub == "upload"@ {
        seq![
            gh_detection(
                gh_label(g, "upload"@, location),
                "POST"@,
                "/repos/{owner}/{repo}/releases/{id}/assets"@,
            ),
        ]
    } else if sub == "edit"@ {
        seq![gh_detection(gh_label(g, "edit"@, location), "PATCH"@, "/repos/{owner}/{repo}/releases/{id}"@)]
    } else if sub == "delete"@ {
        seq![
            gh_detection(gh_label(g, "delete"@, location), "DELETE"@, "/repos/{owner}/{repo}/releases/{id}"@),
        ]
    } else if sub == "view"@ {
        seq![
            gh_detection(gh_label(g, "view"@, location), "GET"@, "/repos/{owner}/{repo}/releases/tags/{tag}"@),
        ]
    } else if sub == "list"@ {
        seq![gh_detection(gh_label(g, "list"@, location), "GET"@, "/repos/{owner}/{repo}/releases"@)]
    } else if sub == "download"@ {
        seq![
            gh_detection(
                gh_label(g, "download"@, location),
                "GET"@,
                "/repos/{owner}/{repo}/releases/assets/{id}"@,
            ),
        ]
    } else {
        Seq::empty()
    }
}

pub open spec fn gh_issue_spec(positional: Seq<Seq<char>>, location: Seq<char>) -> Seq<
    ApiDetectionView,
> {
    let sub = sub_of(positional);
    let g = "issue"@;
    if sub == "create"@ {
        seq![gh_detection(gh_label(g, "create"@, location), "POST"@, "/repos/{owner}/{repo}/issues"@)]
    } else if sub == "comment"@ {
        seq![
            gh_detection(
                gh_label(g, "comment"@, location),
                "POST"@,
                "/repos/{owner}/{repo}/issues/{number}/comments"@,
            ),
        ]
    } else if sub == "close"@ || sub == "reopen"@ || sub == "edit"@ || sub == "lock"@ || sub
        == "unlock"@ {
        seq![gh_detection(gh_label(g, sub, location), "PATCH"@, "/repos/{owner}/{repo}/issues/{number}"@)]
    } else if sub == "view"@ {
        seq![gh_detection(gh_label(g, "view"@, location), "GET"@, "/repos/{owner}/{repo}/issues/{number}"@)]
    } else if sub == "list"@ {
        seq![gh_detection(gh_label(g, "list"@, location), "GET"@, "/repos/{owner}/{repo}/issues"@)]
    } else {
        Seq::empty()
    }
}

pub open spec fn gh_pr_spec(positional: Seq<Seq<char>>, location: Seq<char>) -> Seq<ApiDetectionView> {
    let sub = sub_of(positional);
    let g = "pr"@;
    if sub == "create"@ {
        seq![gh_detection(gh_label(g, "create"@, location), "POST"@, "/repos/{owner}/{repo}/pulls"@)]
    } else if sub == "edit"@ || sub == "close"@ || sub == "reopen"@ {
        seq![gh_detection(gh_label(g, sub, location), "PATCH"@, "/repos/{owner}/{repo}/pulls/{number}"@)]
    } else if sub == "review"@ {
        seq![
            gh_detection(
                gh_label(g, "review"@, location),
                "POST"@,
                "/repos/{owner}/{repo}/pulls/{number}/reviews"@,
            ),
        ]
    } else if sub == "comment"@ {
        seq![
            gh_detection(
                gh_label(g, "comment"@, location),
                "POST"@,
                "/repos/{owner}/{repo}/issues/{number}/comments"@,
            ),
        ]
    } else if sub == "view"@ {
        seq![gh_detection(gh_label(g, "view"@, location), "GET"@, "/repos/{owner}/{repo}/pulls/{number}"@)]
    } else if sub == "list"@ {
        seq![gh_detection(gh_label(g, "list"@, location), "GET"@, "/repos/{owner}/{repo}/pulls"@)]
    } else {
        Seq::empty()
    }
}

pub open spec fn gh_run_spec(positional: Seq<Seq<char>>, location: Seq<char>) -> Seq<ApiDetectionView> {
    let sub = sub_of(positional);
    let g = "run"@;
    if sub == "view"@ {
        seq![
            gh_detection(gh_label(g, "view"@, location), "GET"@, "/repos/{owner}/{repo}/actions/runs/{id}"@),
        ]
    } else if sub == "list"@ {
        seq![gh_detection(gh_label(g, "list"@, location), "GET"@, "/repos/{owner}/{repo}/actions/runs"@)]
    } else if sub == "cancel"@ {
        seq![
            gh_detection(
                gh_label(g, "cancel"@, location),
                "POST"@,
                "/repos/{owner}/{repo}/actions/runs/{id}/cancel"@,
            ),
        ]
    } else {
        Seq::empty()
    }
}

pub open spec fn gh_workflow_spec(positional: Seq<Seq<char>>, location: Seq<char>) -> Seq<
    ApiDetectionView,
> {
    let sub = sub_of(positional);
    let g = "workflow"@;
    if sub == "run"@ {
        seq![
            gh_detection(
                gh_label(g, "run"@, location),
                "POST"@,
                "/repos/{owner}/{repo}/actions/workflows/{id}/dispatches"@,
            ),
        ]
    } else if sub == "view"@ || sub == "list"@ {
        seq![gh_detection(gh_label(g, sub, location), "GET"@, "/repos/{owner}/{repo}/actions/workflows"@)]
    } else {
        Seq::empty()
    }
}

/// The `gh` subcommands that create or change state on GitHub.
pub open spec fn gh_changes_state(group: Seq<char>, sub: Seq<char>) -> bool {
    ||| group == "issue"@ && (sub == "create"@ || sub == "comment"@ || sub == "close"@ || sub
        == "reopen"@ || sub == "edit"@ || sub == "lock"@ || sub == "unlock"@)
    ||| group == "pr"@ && (sub == "create"@ || sub == "edit"@ || sub == "close"@ || sub
        == "reopen"@ || sub == "review"@ || sub == "comment"@)
    ||| group == "release"@ && (sub == "create"@ || sub == "upload"@ || sub == "edit"@ || sub
        == "delete"@)
    ||| group == "run"@ && sub == "cancel"@
    ||| group == "workflow"@ && sub == "run"@
}

/// The `gh` subcommands that only read from GitHub.
pub open spec fn gh_reads_only(group: Seq<char>, sub: Seq<char>) -> bool {
    ||| (group == "issue"@ || group == "pr"@ || group == "run"@ || group == "workflow"@) && (sub
        == "view"@ || sub == "list"@)
    ||| group == "release"@ && (sub == "view"@ || sub == "list"@ || sub == "download"@)
}

/// At least one detection, each a simulated `gh` CLI call with a
/// state-changing method.
pub open spec fn all_mutating(ds: Seq<ApiDetectionView>) -> bool {
    &&& ds.len() >= 1
    &&& forall|i: int|
        0 <= i < ds.len() ==> mutating_method((#[trigger] ds[i]).method) && ds[i].origin
            == ApiDetectionOrigin::GhCli && ds[i].classification == Compatibility::Simulated
}

/// At least one detection, each a simulated `gh` CLI call with `GET`.
pub open spec fn all_reads(ds: Seq<ApiDetectionView>) -> bool {
    &&& ds.len() >= 1
    &&& forall|i: int|
        0 <= i < ds.len() ==> (#[trigger] ds[i]).method == "GET"@ && ds[i].origin
            == ApiDetectionOrigin::GhCli && ds[i].classification == Compatibility::Simulated
}


/// Every `gh` subcommand that creates or changes state (such as `gh issue
/// comment`, `gh pr create`, `gh release create`, `gh run cancel`, `gh
/// workflow run`) is detected as one or more calls with a state-changing
/// method, each of which the catalog can only serve with write access
/// (`catalog::law_catalog_write_for_mutations`); every read-only subcommand
/// (`view`, `list`, `download`) is detected as `GET` calls.
pub proof fn law_gh_state_changes_are_writes(tokens: Seq<Seq<char>>, location: Seq<char>)
    ensures
        positional_seq(tokens).len() >= 2 && gh_changes_state(
            positional_seq(tokens)[0],
            positional_seq(tokens)[1],
        ) ==> all_mutating(gh_spec(tokens, location)),
        positional_seq(tokens).len() >= 2 && gh_reads_only(
            positional_seq(tokens)[0],
            positional_seq(tokens)[1],
        ) ==> all_reads(gh_spec(tokens, location)),
{
    reveal_strlit("issue");
    reveal_strlit("pr");
    reveal_strlit("release");
    reveal_strlit("run");
    reveal_strlit("workflow");
    reveal_strlit("api");
    reveal_strlit("create");
    reveal_strlit("comment");
    reveal_strlit("close");
    reveal_strlit("reopen");
    reveal_strlit("edit");
    reveal_strlit("lock");
    reveal_strlit("unlock");
    reveal_strlit("review");
    reveal_strlit("upload");
    reveal_strlit("delete");
    reveal_strlit("cancel");
    reveal_strlit("view");
    reveal_strlit("list");
    reveal_strlit("download");
    reveal_strlit("GET");
    reveal_strlit("POST");
    reveal_strlit("PUT");
    reveal_strlit("PATCH");
    reveal_strlit("DELETE");
    let p = positional_seq(tokens);
    if p.len() >= 2 {
        let g = p[0];
        let sub = p[1];
        assert(sub_of(p) == sub);
        if g == "issue"@ {
            lemma_gh_issue(p, location);
        } else if g == "pr"@ {
            lemma_gh_pr(p, location);
        } else if g == "release"@ {
            lemma_gh_release(p, location);
        } else if g == "run"@ {
            lemma_gh_run(p, location);
        } else if g == "workflow"@ {
            lemma_gh_workflow(p, location);
        }
    }
}

proof fn lemma_gh_issue(p: Seq<Seq<char>>, location: Seq<char>)
    ensures
        gh_changes_state("issue"@, sub_of(p)) ==> all_mutating(gh_issue_spec(p, location)),
        gh_reads_only("issue"@, sub_of(p)) ==> all_reads(gh_issue_spec(p, location)),
{
    reveal_strlit("issue");
    reveal_strlit("pr");
    reveal_strlit("release");
    reveal_strlit("run");
    reveal_strlit("workflow");
    reveal_strlit("api");
    reveal_strlit("create");
    reveal_strlit("comment");
    reveal_strlit("close");
    reveal_strlit("reopen");
    reveal_strlit("edit");
    reveal_strlit("lock");
    reveal_strlit("unlock");
    reveal_strlit("review");
    reveal_strlit("upload");
    reveal_strlit("delete");
    reveal_strlit("cancel");
    reveal_strlit("view");
    reveal_strlit("list");
    reveal_strlit("download");
    reveal_strlit("GET");
    reveal_strlit("POST");
    reveal_strlit("PUT");
    reveal_strlit("PATCH");
    reveal_strlit("DELETE");
    let sub = sub_of(p);
    if sub == "view"@ {
        assert("view"@[0] != "edit"@[0] && "view"@[0] != "lock"@[0]);
    }
    if sub == "list"@ {
        assert("list"@[0] != "edit"@[0] && "list"@[1] != "lock"@[1] && "list"@[0] != "view"@[0]);
    }
}

proof fn lemma_gh_pr(p: Seq<Seq<char>>, location: Seq<char>)
    ensures
        gh_changes_state("pr"@, sub_of(p)) ==> all_mutating(gh_pr_spec(p, location)),
        gh_reads_only("pr"@, sub_of(p)) ==> all_reads(gh_pr_spec(p, location)),
{
    reveal_strlit("issue");
    reveal_strlit("pr");
    reveal_strlit("release");
    reveal_strlit("run");
    reveal_strlit("workflow");
    reveal_strlit("api");
    reveal_strlit("create");
    reveal_strlit("comment");
    reveal_strlit("close");
    reveal_strlit("reopen");
    reveal_strlit("edit");
    reveal_strlit("lock");
    reveal_strlit("unlock");
    reveal_strlit("review");
    reveal_strlit("upload");
    reveal_strlit("delete");
    reveal_strlit("cancel");
    reveal_strlit("view");
    reveal_strlit("list");
    reveal_strlit("download");
    reveal_strlit("GET");
    reveal_strlit("POST");
    reveal_strlit("PUT");
    reveal_strlit("PATCH");
    reveal_strlit("DELETE");
    let sub = sub_of(p);
    if sub == "view"@ {
        assert("view"@[0] != "edit"@[0] && "view"@[0] != "lock"@[0]);
    }
    if sub == "list"@ {
        assert("list"@[0] != "edit"@[0] && "list"@[1] != "lock"@[1] && "list"@[0] != "view"@[0]);
    }
}

proof fn lemma_gh_release(p: Seq<Seq<char>>, location: Seq<char>)
    ensures
        gh_changes_state("release"@, sub_of(p)) ==> all_mutating(gh_release_spec(p, location)),
        gh_reads_only("release"@, sub_of(p)) ==> all_reads(gh_release_spec(p, location)),
{
    reveal_strlit("issue");
    reveal_strlit("pr");
    reveal_strlit("release");
    reveal_strlit("run");
    reveal_strlit("workflow");
    reveal_strlit("api");
    reveal_strlit("create");
    reveal_strlit("comment");
    reveal_strlit("close");
    reveal_strlit("reopen");
    reveal_strlit("edit");
    reveal_strlit("lock");
    reveal_strlit("unlock");
    reveal_strlit("review");
    reveal_strlit("upload");
    reveal_strlit("delete");
    reveal_strlit("cancel");
    reveal_strlit("view");
    reveal_strlit("list");
    reveal_strlit("download");
    reveal_strlit("GET");
    reveal_strlit("POST");
    reveal_strlit("PUT");
    reveal_strlit("PATCH");
    reveal_strlit("DELETE");
    let sub = sub_of(p);
    if sub == "view"@ {
        assert("view"@[0] != "edit"@[0] && "view"@[0] != "lock"@[0]);
    }
    if sub == "list"@ {
        assert("list"@[0] != "edit"@[0] && "list"@[1] != "lock"@[1] && "list"@[0] != "view"@[0]);
    }
}

proof fn lemma_gh_run(p: Seq<Seq<char>>, location: Seq<char>)
    ensures
        gh_changes_state("run"@, sub_of(p)) ==> all_mutating(gh_run_spec(p, location)),
        gh_reads_only("run"@, sub_of(p)) ==> all_reads(gh_run_spec(p, location)),
{
    reveal_strlit("issue");
    reveal_strlit("pr");
    reveal_strlit("release");
    reveal_strlit("run");
    reveal_strlit("workflow");
    reveal_strlit("api");
    reveal_strlit("create");
    reveal_strlit("comment");
    reveal_strlit("close");
    reveal_strlit("reopen");
    reveal_strlit("edit");
    reveal_strlit("lock");
    reveal_strlit("unlock");
    reveal_strlit("review");
    reveal_strlit("upload");
    reveal_strlit("delete");
    reveal_strlit("cancel");
    reveal_strlit("view");
    reveal_strlit("list");
    reveal_strlit("download");
    reveal_strlit("GET");
    reveal_strlit("POST");
    reveal_strlit("PUT");
    reveal_strlit("PATCH");
    reveal_strlit("DELETE");
}

proof fn lemma_gh_workflow(p: Seq<Seq<char>>, location: Seq<char>)
    ensures
        gh_changes_state("workflow"@, sub_of(p)) ==> all_mutating(gh_workflow_spec(p, location)),
        gh_reads_only("workflow"@, sub_of(p)) ==> all_reads(gh_workflow_spec(p, location)),
{
    reveal_strlit("issue");
    reveal_strlit("pr");
    reveal_strlit("release");
    reveal_strlit("run");
    reveal_strlit("workflow");
    reveal_strlit("api");
    reveal_strlit("create");
    reveal_strlit("comment");
    reveal_strlit("close");
    reveal_strlit("reopen");
    reveal_strlit("edit");
    reveal_strlit("lock");
    reveal_strlit("unlock");
    reveal_strlit("review");
    reveal_strlit("upload");
    reveal_strlit("delete");
    reveal_strlit("cancel");
    reveal_strlit("view");
    reveal_strlit("list");
    reveal_strlit("download");
    reveal_strlit("GET");
    reveal_strlit("POST");
    reveal_strlit("PUT");
    reveal_strlit("PATCH");
    reveal_strlit("DELETE");
}

fn sub_word(positional: &Vec<String>) -> (r: String)
    ensures
        r@ == sub_of(positional.deep_view()),
{
    if positional.len() > 1 {
        positional[1].clone()
    } else {
        String::new()
    }
}

fn label_for(group: &str, verb: &str, location: &str) -> (r: String)
    ensures
        r@ == gh_label(group@, verb@, location@),
{
    let mut r = text::cat4("gh ", group, " ", verb);
    r.append(" at ");
    r.append(location);
    r
}

pub fn detect_gh_release(positional: &Vec<String>, location: &str) -> (r: Vec<ApiDetection>)
    ensures
        r.deep_view() == gh_release_spec(positional.deep_view(), location@),
{
    let sub = sub_word(positional);
    let s = sub.as_str();
    let mut out: Vec<ApiDetection> = Vec::new();
    if text::str_eq(s, "create") {
        out.push(release_create(label_for("release", "create", location)));
        out.push(release_assets_upload(label_for("release", "create (asset upload)", location)));
    } else if text::str_eq(s, "upload") {
        out.push(release_assets_upload(label_for("release", "upload", location)));
    } else if text::str_eq(s, "edit") {
        out.push(gh_cli(label_for("release", "edit", location), "PATCH", "/repos/{owner}/{repo}/releases/{id}"));
    } else if text::str_eq(s, "delete") {
        out.push(gh_cli(label_for("release", "delete", location), "DELETE", "/repos/{owner}/{repo}/releases/{id}"));
    } else if text::str_eq(s, "view") {
        out.push(gh_cli(label_for("release", "view", location), "GET", "/repos/{owner}/{repo}/releases/tags/{tag}"));
    } else if text::str_eq(s, "list") {
        out.push(gh_cli(label_for("release", "list", location), "GET", "/repos/{owner}/{repo}/releases"));
    } else if text::str_eq(s, "download") {
        out.push(gh_cli(label_for("release", "download", location), "GET", "/repos/{owner}/{repo}/releases/assets/{id}"));
    }
    assert(out.deep_view() =~= gh_release_spec(positional.deep_view(), location@));
    out
}

pub fn release_create(label: String) -> (d: ApiDetection)
    ensures
        d.deep_view() == gh_detection(label@, "POST"@, "/repos/{owner}/{repo}/releases"@),
{
    gh_cli(label, "POST", "/repos/{owner}/{repo}/releases")
}

pub fn release_assets_upload(label: String) -> (d: ApiDetection)
    ensures
        d.deep_view() == gh_detection(label@, "POST"@, "/repos/{owner}/{repo}/releases/{id}/assets"@),
{
    gh_cli(label, "POST", "/repos/{owner}/{repo}/releases/{id}/assets")
}

pub fn detect_gh_issue(positional: &Vec<String>, location: &str) -> (r: Vec<ApiDetection>)
    ensures
        r.deep_view() == gh_issue_spec(positional.deep_view(), location@),
{
    let sub = sub_word(positional);
    let s = sub.as_str();
    let mut out: Vec<ApiDetection> = Vec::new();
    if text::str_eq(s, "create") {
        out.push(gh_cli(label_for("issue", "create", location), "POST", "/repos/{owner}/{repo}/issues"));
    } else if text::str_eq(s, "comment") {
        out.push(gh_cli(label_for("issue", "comment", location), "POST", "/repos/{owner}/{repo}/issues/{number}/comments"));
    } else if text::str_eq(s, "close") || text::str_eq(s, "reopen") || text::str_eq(s, "edit")
        || text::str_eq(s, "lock") || text::str_eq(s, "unlock") {
        out.push(gh_cli(label_for("issue", s, location), "PATCH", "/repos/{owner}/{repo}/issues/{number}"));
    } else if text::str_eq(s, "view") {
        out.push(gh_cli(label_for("issue", "view", location), "GET", "/repos/{owner}/{repo}/issues/{number}"));
    } else if text::str_eq(s, "list") {
        out.push(gh_cli(label_for("issue", "list", location), "GET", "/repos/{owner}/{repo}/issues"));
    }
    assert(out.deep_view() =~= gh_issue_spec(positional.deep_view(), location@));
    out
}

pub fn detect_gh_pr(positional: &Vec<String>, location: &str) -> (r: Vec<ApiDetection>)
    ensures
        r.deep_view() == gh_pr_spec(positional.deep_view(), location@),
{
    let sub = sub_word(positional);
    let s = sub.as_str();
    let mut out: Vec<ApiDetection> = Vec::new();
    if text::str_eq(s, "create") {
        out.push(gh_cli(label_for("pr", "create", location), "POST", "/repos/{owner}/{repo}/pulls"));
    } else if text::str_eq(s, "edit") || text::str_eq(s, "close") || text::str_eq(s, "reopen") {
        out.push(gh_cli(label_for("pr", s, location), "PATCH", "/repos/{owner}/{repo}/pulls/{number}"));
    } else if text::str_eq(s, "review") {
        out.push(gh_cli(label_for("pr", "review", location), "POST", "/repos/{owner}/{repo}/pulls/{number}/reviews"));
    } else if text::str_eq(s, "comment") {
        out.push(gh_cli(label_for("pr", "comment", location), "POST", "/repos/{owner}/{repo}/issues/{number}/comments"));
    } else if text::str_eq(s, "view") {
        out.push(gh_cli(label_for("pr", "view", location), "GET", "/repos/{owner}/{repo}/pulls/{number}"));
    } else if text::str_eq(s, "list") {
        out.push(gh_cli(label_for("pr", "list", location), "GET", "/repos/{owner}/{repo}/pulls"));
    }
    assert(out.deep_view() =~= gh_pr_spec(positional.deep_view(), location@));
    out
}

pub fn detect_gh_run(positional: &Vec<String>, location: &str) -> (r: Vec<ApiDetection>)
    ensures
        r.deep_view() == gh_run_spec(positional.deep_view(), location@),
{
    let sub = sub_word(positional);
    let s = sub.as_str();
    let mut out: Vec<ApiDetection> = Vec::new();
    if text::str_eq(s, "view") {
        out.push(gh_cli(label_for("run", "view", location), "GET", "/repos/{owner}/{repo}/actions/runs/{id}"));
    } else if text::str_eq(s, "list") {
        out.push(gh_cli(label_for("run", "list", location), "GET", "/repos/{owner}/{repo}/actions/runs"));
    } else if text::str_eq(s, "cancel") {
        out.push(gh_cli(label_for("run", "cancel", location), "POST", "/repos/{owner}/{repo}/actions/runs/{id}/cancel"));
    }
    assert(out.deep_view() =~= gh_run_spec(positional.deep_view(), location@));
    out
}

pub fn detect_gh_workflow(positional: &Vec<String>, location: &str) -> (r: Vec<ApiDetection>)
    ensures
        r.deep_view() == gh_workflow_spec(positional.deep_view(), location@),
{
    let sub = sub_word(positional);
    let s = sub.as_str();
    let mut out: Vec<ApiDetection> = Vec::new();
    if text::str_eq(s, "run") {
        out.push(gh_cli(label_for("workflow", "run", location), "POST", "/repos/{owner}/{repo}/actions/workflows/{id}/dispatches"));
    } else if text::str_eq(s, "view") || text::str_eq(s, "list") {
        out.push(gh_cli(label_for("workflow", s, location), "GET", "/repos/{owner}/{repo}/actions/workflows"));
    }
    assert(out.deep_view() =~= gh_workflow_spec(positional.deep_view(), location@));
    out
}

// ---------------------------------------------------------------------------
// `gh` and `curl` command lines
// ---------------------------------------------------------------------------

/// The words of `ts` that do not start with `-`, in order.
pub open spec fn keep_words(ts: Seq<Seq<char>>) -> Seq<Seq<char>>
    decreases ts.len(),
{
    if ts.len() == 0 {
        Seq::empty()
    } else if starts_with_seq(ts.last(), "-"@) {
        keep_words(ts.drop_last())
    } else {
        keep_words(ts.drop_last()).push(ts.last())
    }
}

/// The positional words after the command name.
pub open spec fn positional_seq(tokens: Seq<Seq<char>>) -> Seq<Seq<char>> {
    if tokens.len() == 0 {
        Seq::empty()
    } else {
        keep_words(tokens.skip(1))
    }
}

/// `gh api` flags that take a value.
pub open spec fn gh_value_flag(arg: Seq<char>) -> bool {
    arg == "-H"@ || arg == "--header"@ || arg == "-f"@ || arg == "--field"@ || arg == "-F"@ || arg
        == "--raw-field"@ || arg == "-q"@ || arg == "--jq"@
}

/// `gh api` flags that take no value.
pub open spec fn gh_bare_flag(arg: Seq<char>) -> bool {
    arg == "-i"@ || arg == "--include"@ || arg == "--paginate"@ || arg == "--silent"@ || arg == "-s"@
}

/// The method and first path argument of `gh api`, scanning from word `i`:
/// `-X`/`--method` set the method from the next word, flags with a value skip
/// it, unknown flags skip one word, and the first plain word is the path.
pub open spec fn gh_api_scan(
    toks: Seq<Seq<char>>,
    i: int,
    method: Seq<char>,
    path: Option<Seq<char>>,
) -> (Seq<char>, Option<Seq<char>>)
    decreases toks.len() - i,
{
    if i < 0 || i >= toks.len() {
        (method, path)
    } else {
        let arg = toks[i];
        let skip2 = if i + 2 <= toks.len() {
            i + 2
        } else {
            toks.len() as int
        };
        if arg == "-X"@ || arg == "--method"@ {
            if i + 1 < toks.len() {
                gh_api_scan(toks, i + 2, uppercase_of(toks[i + 1]), path)
            } else {
                (method, path)
            }
        } else if gh_value_flag(arg) {
            gh_api_scan(toks, skip2, method, path)
        } else if gh_bare_flag(arg) {
            gh_api_scan(toks, i + 1, method, path)
        } else if starts_with_seq(arg, "-"@) {
            gh_api_scan(toks, skip2, method, path)
        } else {
            gh_api_scan(
                toks,
                i + 1,
                method,
                if path is None {
                    Some(arg)
                } else {
                    path
                },
            )
        }
    }
}

/// An API path with a leading slash.
pub open spec fn normalize_api_path_spec(raw: Seq<char>) -> Seq<char> {
    let s = trim_seq(raw);
    if starts_with_seq(s, "/"@) {
        s
    } else {
        "/"@ + s
    }
}

pub open spec fn gh_api_spec(tokens: Seq<Seq<char>>, location: Seq<char>) -> Seq<ApiDetectionView> {
    let (method, path) = gh_api_scan(tokens, 2, "GET"@, None);
    match path {
        None => Seq::empty(),
        Some(raw) => {
            let normalized = normalize_api_path_spec(raw);
            seq![
                gh_detection(
                    "gh api "@ + method + " "@ + normalized + " at "@ + location,
                    method,
                    normalized,
                ),
            ]
        },
    }
}

/// The calls a `gh` command line implies, by its first positional word.
pub open spec fn gh_spec(tokens: Seq<Seq<char>>, location: Seq<char>) -> Seq<ApiDetectionView> {
    let positional = positional_seq(tokens);
    if positional.len() == 0 {
        Seq::empty()
    } else {
        let first = positional[0];
        if first == "release"@ {
            gh_release_spec(positional, location)
        } else if first == "issue"@ {
            gh_issue_spec(positional, location)
        } else if first == "pr"@ {
            gh_pr_spec(positional, location)
        } else if first == "run"@ {
            gh_run_spec(positional, location)
        } else if first == "workflow"@ {
            gh_workflow_spec(positional, location)
        } else if first == "api"@ {
            gh_api_spec(tokens, location)
        } else {
            seq![
                detection_view(
                    ApiDetectionOrigin::GhCli,
                    "gh "@ + join_seq(positional, " "@) + " at "@ + location,
                    "GET"@,
                    "gh-unmapped"@,
                    Compatibility::Unsupported,
                    Some("gh-cli.subcommand_not_in_v1: 'gh "@ + first + "' is not mapped by v1.0"@),
                ),
            ]
        }
    }
}

/// `curl` flags that take a value.
pub open spec fn curl_value_flag(arg: Seq<char>) -> bool {
    arg == "-d"@ || arg == "--data"@ || arg == "--data-raw"@ || arg == "--data-binary"@ || arg
        == "-H"@ || arg == "--header"@ || arg == "-u"@ || arg == "--user"@ || arg == "-A"@ || arg
        == "--user-agent"@ || arg == "--cookie"@ || arg == "-b"@ || arg == "-o"@ || arg
        == "--output"@
}

/// The method and first URL of a `curl` command line, scanning from word `i`.
pub open spec fn curl_scan(
    toks: Seq<Seq<char>>,
    i: int,
    method: Seq<char>,
    url: Option<Seq<char>>,
) -> (Seq<char>, Option<Seq<char>>)
    decreases toks.len() - i,
{
    if i < 0 || i >= toks.len() {
        (method, url)
    } else {
        let arg = toks[i];
        let skip2 = if i + 2 <= toks.len() {
            i + 2
        } else {
            toks.len() as int
        };
        if arg == "-X"@ || arg == "--request"@ {
            if i + 1 < toks.len() {
                curl_scan(toks, i + 2, uppercase_of(toks[i + 1]), url)
            } else {
                (method, url)
            }
        } else if curl_value_flag(arg) {
            curl_scan(toks, skip2, method, url)
        } else if starts_with_seq(arg, "http://"@) || starts_with_seq(arg, "https://"@) {
            curl_scan(
                toks,
                i + 1,
                method,
                if url is None {
                    Some(arg)
                } else {
                    url
                },
            )
        } else {
            curl_scan(toks, i + 1, method, url)
        }
    }
}

/// The path of a GitHub API URL, with a leading slash.
pub open spec fn extract_github_path_spec(url: Seq<char>) -> Option<Seq<char>> {
    let rest = if starts_with_seq(url, "https://"@) {
        Some(url.skip("https://"@.len() as int))
    } else if starts_with_seq(url, "http://"@) {
        Some(url.skip("http://"@.len() as int))
    } else {
        None
    };
    match rest {
        None => None,
        Some(r) => match split_once_seq(r, '/') {
            None => None,
            Some((host, tail)) => if is_github_api_host(host) {
                Some("/"@ + tail)
            } else {
                None
            },
        },
    }
}

pub open spec fn curl_spec(tokens: Seq<Seq<char>>, location: Seq<char>) -> Seq<ApiDetectionView> {
    let (method, url) = curl_scan(tokens, 1, "GET"@, None);
    match url {
        None => Seq::empty(),
        Some(u) => match extract_github_path_spec(u) {
            None => Seq::empty(),
            Some(path) => seq![
                detection_view(
                    ApiDetectionOrigin::Curl,
                    "curl "@ + method + " "@ + u + " at "@ + location,
                    method,
                    path,
                    Compatibility::Simulated,
                    None,
                ),
            ],
        },
    }
}

proof fn lemma_gh_api_scan_method(
    toks: Seq<Seq<char>>,
    i: int,
    method: Seq<char>,
    path: Option<Seq<char>>,
)
    requires
        0 <= i,
        forall|j: int| i <= j < toks.len() ==> #[trigger] toks[j] != "-X"@ && toks[j] != "--method"@,
    ensures
        gh_api_scan(toks, i, method, path).0 == method,
    decreases toks.len() - i,
{
    if i < toks.len() {
        let skip2 = if i + 2 <= toks.len() {
            i + 2
        } else {
            toks.len() as int
        };
        lemma_gh_api_scan_method(toks, i + 1, method, if path is None {
            Some(toks[i])
        } else {
            path
        });
        lemma_gh_api_scan_method(toks, i + 1, method, path);
        lemma_gh_api_scan_method(toks, skip2, method, path);
    }
}

proof fn lemma_curl_scan_method(
    toks: Seq<Seq<char>>,
    i: int,
    method: Seq<char>,
    url: Option<Seq<char>>,
)
    requires
        0 <= i,
        forall|j: int| i <= j < toks.len() ==> #[trigger] toks[j] != "-X"@ && toks[j] != "--request"@,
    ensures
        curl_scan(toks, i, method, url).0 == method,
    decreases toks.len() - i,
{
    if i < toks.len() {
        let skip2 = if i + 2 <= toks.len() {
            i + 2
        } else {
            toks.len() as int
        };
        lemma_curl_scan_method(toks, i + 1, method, if url is None {
            Some(toks[i])
        } else {
            url
        });
        lemma_curl_scan_method(toks, i + 1, method, url);
        lemma_curl_scan_method(toks, skip2, method, url);
    }
}

/// Without a method flag (`-X`/`--method` for `gh api`, `-X`/`--request` for
/// `curl`) the call that `gh api` or `curl` makes is a `GET`.
pub proof fn law_default_method_is_get(tokens: Seq<Seq<char>>, location: Seq<char>)
    ensures
        (forall|j: int| 2 <= j < tokens.len() ==> #[trigger] tokens[j] != "-X"@ && tokens[j]
            != "--method"@) ==> forall|k: int|
            0 <= k < gh_api_spec(tokens, location).len() ==> (#[trigger] gh_api_spec(
                tokens,
                location,
            )[k]).method == "GET"@,
        (forall|j: int| 1 <= j < tokens.len() ==> #[trigger] tokens[j] != "-X"@ && tokens[j]
            != "--request"@) ==> forall|k: int|
            0 <= k < curl_spec(tokens, location).len() ==> (#[trigger] curl_spec(tokens, location)[k]).method
                == "GET"@,
{
    if forall|j: int| 2 <= j < tokens.len() ==> #[trigger] tokens[j] != "-X"@ && tokens[j]
        != "--method"@ {
        lemma_gh_api_scan_method(tokens, 2, "GET"@, None);
    }
    if forall|j: int| 1 <= j < tokens.len() ==> #[trigger] tokens[j] != "-X"@ && tokens[j]
        != "--request"@ {
        lemma_curl_scan_method(tokens, 1, "GET"@, None);
    }
}

/// The calls a command line implies, by its command name.
pub open spec fn command_spec(tokens: Seq<Seq<char>>, location: Seq<char>) -> Seq<ApiDetectionView> {
    if tokens.len() == 0 {
        Seq::empty()
    } else if tokens[0] == "gh"@ {
        gh_spec(tokens, location)
    } else if tokens[0] == "curl"@ {
        curl_spec(tokens, location)
    } else {
        Seq::empty()
    }
}

fn is_gh_value_flag(arg: &str) -> (r: bool)
    ensures
        r == gh_value_flag(arg@),
{
    text::str_eq(arg, "-H") || text::str_eq(arg, "--header") || text::str_eq(arg, "-f")
        || text::str_eq(arg, "--field") || text::str_eq(arg, "-F") || text::str_eq(
        arg,
        "--raw-field",
    ) || text::str_eq(arg, "-q") || text::str_eq(arg, "--jq")
}

fn is_gh_bare_flag(arg: &str) -> (r: bool)
    ensures
        r == gh_bare_flag(arg@),
{
    text::str_eq(arg, "-i") || text::str_eq(arg, "--include") || text::str_eq(arg, "--paginate")
        || text::str_eq(arg, "--silent") || text::str_eq(arg, "-s")
}

fn is_curl_value_flag(arg: &str) -> (r: bool)
    ensures
        r == curl_value_flag(arg@),
{
    text::str_eq(arg, "-d") || text::str_eq(arg, "--data") || text::str_eq(arg, "--data-raw")
        || text::str_eq(arg, "--data-binary") || text::str_eq(arg, "-H") || text::str_eq(
        arg,
        "--header",
    ) || text::str_eq(arg, "-u") || text::str_eq(arg, "--user") || text::str_eq(arg, "-A")
        || text::str_eq(arg, "--user-agent") || text::str_eq(arg, "--cookie") || text::str_eq(
        arg,
        "-b",
    ) || text::str_eq(arg, "-o") || text::str_eq(arg, "--output")
}

/// The method and path that `gh api` calls.
pub fn detect_gh_api(tokens: &Vec<String>, location: &str) -> (r: Vec<ApiDetection>)
    ensures
        r.deep_view() == gh_api_spec(tokens.deep_view(), location@),
{
    let ghost toks = tokens.deep_view();
    let mut method = text::own("GET");
    let mut path: Option<String> = None;
    let mut i: usize = 2;
    while i < tokens.len()
        invariant
            toks == tokens.deep_view(),
            2 <= i,
            gh_api_scan(toks, 2, "GET"@, None) == gh_api_scan(toks, i as int, method@, path.deep_view()),
        decreases tokens.len() - i,
    {
        let arg = tokens[i].as_str();
        assert(arg@ == toks[i as int]);
        if text::str_eq(arg, "-X") || text::str_eq(arg, "--method") {
            if i + 1 < tokens.len() {
                method = text::to_uppercase(tokens[i + 1].as_str());
                i += 2;
            } else {
                i = tokens.len();
            }
        } else if is_gh_value_flag(arg) {
            i = if tokens.len() - i >= 2 { i + 2 } else { tokens.len() };
        } else if is_gh_bare_flag(arg) {
            i += 1;
        } else if text::starts_with(arg, "-") {
            i = if tokens.len() - i >= 2 { i + 2 } else { tokens.len() };
        } else {
            if path.is_none() {
                path = Some(tokens[i].clone());
            }
            i += 1;
        }
    }
    let mut out: Vec<ApiDetection> = Vec::new();
    let Some(raw_path) = path else {
        assert(out.deep_view() =~= gh_api_spec(toks, location@));
        return out;
    };
    let normalized = normalize_api_path(raw_path.as_str());
    let mut label = text::cat4("gh api ", method.as_str(), " ", normalized.as_str());
    label.append(" at ");
    label.append(location);
    out.push(gh_cli(label, method.as_str(), normalized.as_str()));
    assert(out.deep_view() =~= gh_api_spec(toks, location@));
    out
}

pub fn normalize_api_path(raw: &str) -> (r: String)
    ensures
        r@ == normalize_api_path_spec(raw@),
{
    let stripped = text::trim(raw);
    if text::starts_with(stripped.as_str(), "/") {
        stripped
    } else {
        text::cat2("/", stripped.as_str())
    }
}

/// The call a `curl` command line makes, when it targets a GitHub API host.
pub fn detect_from_curl(tokens: &Vec<String>, location: &str) -> (r: Vec<ApiDetection>)
    ensures
        r.deep_view() == curl_spec(tokens.deep_view(), location@),
{
    let ghost toks = tokens.deep_view();
    let mut method = text::own("GET");
    let mut url: Option<String> = None;
    let mut i: usize = 1;
    while i < tokens.len()
        invariant
            toks == tokens.deep_view(),
            1 <= i,
            curl_scan(toks, 1, "GET"@, None) == curl_scan(toks, i as int, method@, url.deep_view()),
        decreases tokens.len() - i,
    {
        let arg = tokens[i].as_str();
        assert(arg@ == toks[i as int]);
        if text::str_eq(arg, "-X") || text::str_eq(arg, "--request") {
            if i + 1 < tokens.len() {
                method = text::to_uppercase(tokens[i + 1].as_str());
                i += 2;
            } else {
                i = tokens.len();
            }
        } else if is_curl_value_flag(arg) {
            i = if tokens.len() - i >= 2 { i + 2 } else { tokens.len() };
        } else if text::starts_with(arg, "http://") || text::starts_with(arg, "https://") {
            if url.is_none() {
                url = Some(tokens[i].clone());
            }
            i += 1;
        } else {
            i += 1;
        }
    }
    let mut out: Vec<ApiDetection> = Vec::new();
    let Some(url) = url else {
        assert(out.deep_view() =~= curl_spec(toks, location@));
        return out;
    };
    let Some(path) = extract_github_path(url.as_str()) else {
        assert(out.deep_view() =~= curl_spec(toks, location@));
        return out;
    };
    let mut label = text::cat4("curl ", method.as_str(), " ", url.as_str());
    label.append(" at ");
    label.append(location);
    out.push(
        new_detection(
            ApiDetectionOrigin::Curl,
            label,
            method.as_str(),
            path.as_str(),
            Compatibility::Simulated,
            None,
        ),
    );
    assert(out.deep_view() =~= curl_spec(toks, location@));
    out
}

/// The path of a GitHub API URL.
pub fn extract_github_path(url: &str) -> (r: Option<String>)
    ensures
        r.deep_view() == extract_github_path_spec(url@),
{
    let https = "https://";
    let http = "http://";
    let without_scheme = if text::starts_with(url, https) {
        text::suffix(url, text::chars_of(https).len())
    } else if text::starts_with(url, http) {
        text::suffix(url, text::chars_of(http).len())
    } else {
        return None;
    };
    let Some((host, rest)) = text::split_once(without_scheme.as_str(), '/') else {
        return None;
    };
    if text::eq_ignore_ascii_case(host.as_str(), "api.github.com") || text::eq_ignore_ascii_case(
        host.as_str(),
        "uploads.github.com",
    ) {
        Some(text::cat2("/", rest.as_str()))
    } else {
        None
    }
}

fn positional_words(tokens: &Vec<String>) -> (r: Vec<String>)
    ensures
        r.deep_view() == positional_seq(tokens.deep_view()),
{
    let ghost toks = tokens.deep_view();
    let mut out: Vec<String> = Vec::new();
    if tokens.len() == 0 {
        assert(out.deep_view() =~= positional_seq(toks));
        return out;
    }
    let mut i: usize = 1;
    assert(toks.skip(1).take(0) =~= Seq::<Seq<char>>::empty());
    assert(out.deep_view() =~= Seq::<Seq<char>>::empty());
    while i < tokens.len()
        invariant
            toks == tokens.deep_view(),
            1 <= i <= toks.len(),
            out.deep_view() == keep_words(toks.skip(1).take(i - 1)),
        decreases tokens.len() - i,
    {
        assert(toks.skip(1).take(i as int).drop_last() =~= toks.skip(1).take(i - 1));
        assert(toks.skip(1).take(i as int).last() == toks[i as int]);
        let ghost before = out.deep_view();
        if !text::starts_with(tokens[i].as_str(), "-") {
            out.push(tokens[i].clone());
            assert(out.deep_view() =~= before.push(toks[i as int]));
        }
        i += 1;
    }
    assert(toks.skip(1).take(i - 1) =~= toks.skip(1));
    out
}

/// The calls a `gh` command line implies.
pub fn detect_from_gh(tokens: &Vec<String>, location: &str) -> (r: Vec<ApiDetection>)
    ensures
        r.deep_view() == gh_spec(tokens.deep_view(), location@),
{
    let positional = positional_words(tokens);
    if positional.len() == 0 {
        let out: Vec<ApiDetection> = Vec::new();
        assert(out.deep_view() =~= gh_spec(tokens.deep_view(), location@));
        return out;
    }
    let first = positional[0].as_str();
    if text::str_eq(first, "release") {
        detect_gh_release(&positional, location)
    } else if text::str_eq(first, "issue") {
        detect_gh_issue(&positional, location)
    } else if text::str_eq(first, "pr") {
        detect_gh_pr(&positional, location)
    } else if text::str_eq(first, "run") {
        detect_gh_run(&positional, location)
    } else if text::str_eq(first, "workflow") {
        detect_gh_workflow(&positional, location)
    } else if text::str_eq(first, "api") {
        detect_gh_api(tokens, location)
    } else {
        let joined = text::join(&positional, " ");
        let mut label = text::cat4("gh ", joined.as_str(), " at ", location);
        let reason = text::cat3("gh-cli.subcommand_not_in_v1: 'gh ", first, "' is not mapped by v1.0");
        let mut out: Vec<ApiDetection> = Vec::new();
        out.push(
            new_detection(
                ApiDetectionOrigin::GhCli,
                label,
                "GET",
                "gh-unmapped",
                Compatibility::Unsupported,
                Some(reason),
            ),
        );
        assert(out.deep_view() =~= gh_spec(tokens.deep_view(), location@));
        out
    }
}

/// The calls a command line (already split into words) implies.
pub fn detect_from_command(tokens: &Vec<String>, location: &str) -> (r: Vec<ApiDetection>)
    ensures
        r.deep_view() == command_spec(tokens.deep_view(), location@),
{
    if tokens.len() == 0 {
        let out: Vec<ApiDetection> = Vec::new();
        assert(out.deep_view() =~= command_spec(tokens.deep_view(), location@));
        return out;
    }
    let cmd = tokens[0].as_str();
    if text::str_eq(cmd, "gh") {
        detect_from_gh(tokens, location)
    } else if text::str_eq(cmd, "curl") {
        detect_from_curl(tokens, location)
    } else {
        let out: Vec<ApiDetection> = Vec::new();
        assert(out.deep_view() =~= command_spec(tokens.deep_view(), location@));
        out
    }
}

// ---------------------------------------------------------------------------
// `run:` scripts
// ---------------------------------------------------------------------------

/// The words of a shell command line, as `shell_words::split` yields them;
/// `None` where it reports a parse error.
pub uninterp spec fn shell_split(line: Seq<char>) -> Option<Seq<Seq<char>>>;

/// Calls `shell_words::split`; its words are named `shell_split` of the line.
#[verifier::external_body]
fn split_shell_words(line: &str) -> (r: Option<Vec<String>>)
    ensures
        match r {
            Some(v) => shell_split(line@) == Some(v.deep_view()),
            None => shell_split(line@) is None,
        },
{
    shell_words::split(line).ok()
}

/// The calls one line of a script implies; blank lines, comments and lines
/// that do not split into shell words imply none.
pub open spec fn line_spec(line: Seq<char>, location: Seq<char>) -> Seq<ApiDetectionView> {
    let t = trim_seq(line);
    if t.len() == 0 || starts_with_seq(t, "#"@) {
        Seq::empty()
    } else {
        match shell_split(t) {
            None => Seq::empty(),
            Some(tokens) => command_spec(tokens, location),
        }
    }
}

/// The calls a `run:` script implies, line by line.
pub open spec fn run_spec(run: Seq<char>, location: Seq<char>) -> Seq<ApiDetectionView> {
    let lines = lines_seq(run);
    concat_all(Seq::new(lines.len(), |i: int| line_spec(lines[i], location)))
}

/// The calls one trimmed, non-comment line implies (the result of shell
/// splitting it is taken as given).
fn detect_from_line(line: &str, location: &str) -> (r: Vec<ApiDetection>)
    ensures
        r.deep_view() == line_spec(line@, location@),
{
    let trimmed = text::trim(line);
    if text::chars_of(trimmed.as_str()).len() == 0 || text::starts_with(trimmed.as_str(), "#") {
        let out: Vec<ApiDetection> = Vec::new();
        assert(out.deep_view() =~= line_spec(line@, location@));
        return out;
    }
    match split_shell_words(trimmed.as_str()) {
        Some(tokens) => detect_from_command(&tokens, location),
        None => {
            let out: Vec<ApiDetection> = Vec::new();
            assert(out.deep_view() =~= line_spec(line@, location@));
            out
        },
    }
}

/// The calls a `run:` script implies.
pub fn detect_from_run(run: &str, location: &str) -> (r: Vec<ApiDetection>)
    ensures
        r.deep_view() == run_spec(run@, location@),
{
    let lines = text::lines(run);
    let ghost lv = lines.deep_view();
    let ghost per_line = Seq::new(lv.len(), |i: int| line_spec(lv[i], location@));
    let mut out: Vec<ApiDetection> = Vec::new();
    let mut i: usize = 0;
    assert(per_line.take(0) =~= Seq::<Seq<ApiDetectionView>>::empty());
    assert(out.deep_view() =~= Seq::<ApiDetectionView>::empty());
    while i < lines.len()
        invariant
            lv == lines.deep_view(),
            lv == lines_seq(run@),
            per_line == Seq::new(lv.len(), |i: int| line_spec(lv[i], location@)),
            i <= lv.len(),
            out.deep_view() == concat_all(per_line.take(i as int)),
        decreases lines.len() - i,
    {
        let mut found = detect_from_line(lines[i].as_str(), location);
        proof {
            text::lemma_concat_all_take(per_line, i as int);
        }
        let ghost before = out.deep_view();
        let ghost more = found.deep_view();
        out.append(&mut found);
        assert(out.deep_view() =~= before + more);
        i += 1;
    }
    assert(per_line.take(i as int) =~= per_line);
    out
}

// ---------------------------------------------------------------------------
// Steps, jobs and workflows
// ---------------------------------------------------------------------------

/// Where a step sits, for labels and check locations.
pub open spec fn step_location(job_id: Seq<char>, index: usize) -> Seq<char> {
    "job '"@ + job_id + "' step "@ + decimal(index as nat)
}

/// The string stored in an optional value, if it is a string.
pub open spec fn text_of(v: Option<YamlValue>) -> Option<Seq<char>> {
    match v {
        Some(YamlValue::Text(t)) => Some(t@),
        _ => None,
    }
}

/// The calls a step implies before classification: its action, then its script.
pub open spec fn raw_step_detections(step: Seq<(YamlValue, YamlValue)>, location: Seq<char>) -> Seq<
    ApiDetectionView,
> {
    (match text_of(mapping_get_spec(step, "uses"@)) {
        Some(u) => action_spec(u, location),
        None => Seq::empty(),
    }) + (match text_of(mapping_get_spec(step, "run"@)) {
        Some(r) => run_spec(r, location),
        None => Seq::empty(),
    })
}

/// The classification request for a detected call.
pub open spec fn detection_options(
    d: ApiDetectionView,
    location: Seq<char>,
    effective: PermissionSetView,
) -> ClassifyOptionsView {
    ClassifyOptionsView {
        method: d.method,
        path: d.path,
        url: None,
        origin: Some(location),
        permissions: Some(effective),
    }
}

/// A detection carrying the outcome of classifying it.
pub open spec fn classified(
    d: ApiDetectionView,
    location: Seq<char>,
    effective: PermissionSetView,
) -> ApiDetectionView {
    let r = classify_spec(detection_options(d, location, effective));
    ApiDetectionView {
        classification: r.classification,
        catalog_match: r.catalog_match,
        satisfied: r.satisfied,
        missing_permissions: r.missing_permissions,
        unsupported_reason: r.unsupported_reason,
        ..d
    }
}

/// The report of one step: every implied call classified against the
/// effective permissions, with the classification checks in order.
pub open spec fn scan_step_spec(
    job_id: Seq<char>,
    index: usize,
    step: Seq<(YamlValue, YamlValue)>,
    effective: PermissionSetView,
) -> StepApiReportView {
    let location = step_location(job_id, index);
    let raw = raw_step_detections(step, location);
    StepApiReportView {
        step_index: index,
        step_name: text_of(mapping_get_spec(step, "name"@)),
        uses: text_of(mapping_get_spec(step, "uses"@)),
        detections: Seq::new(raw.len(), |i: int| classified(raw[i], location, effective)),
        checks: concat_all(
            Seq::new(
                raw.len(),
                |i: int| classify_spec(detection_options(raw[i], location, effective)).checks,
            ),
        ),
    }
}

fn text_value(v: Option<&YamlValue>) -> (r: Option<String>)
    ensures
        r.deep_view() == text_of(crate::permissions::opt_value(v)),
{
    match v {
        Some(YamlValue::Text(t)) => Some(t.clone()),
        _ => None,
    }
}

/// The report of one step of a job.
pub fn scan_step(
    job_id: &str,
    index: usize,
    step_map: &Vec<(YamlValue, YamlValue)>,
    effective: &PermissionSet,
) -> (r: StepApiReport)
    ensures
        r.deep_view() == scan_step_spec(job_id@, index, step_map@, effective.deep_view()),
{
    let step_name = text_value(mapping_get(step_map, "name"));
    let uses = text_value(mapping_get(step_map, "uses"));
    let location = text::cat3("job '", job_id, "' step ");
    let mut location = location;
    let idx = text::usize_to_string(index);
    location.append(idx.as_str());
    let ghost loc = location@;
    let mut raw: Vec<ApiDetection> = Vec::new();
    if let Some(uses_ref) = &uses {
        let mut found = detect_from_action(uses_ref.as_str(), location.as_str());
        raw.append(&mut found);
    }
    let run_value = mapping_get(step_map, "run");
    if let Some(YamlValue::Text(run_text)) = run_value {
        let mut found = detect_from_run(run_text.as_str(), location.as_str());
        raw.append(&mut found);
    }
    assert(raw.deep_view() =~= raw_step_detections(step_map@, loc));
    let ghost rv = raw.deep_view();
    let ghost eff = effective.deep_view();
    let ghost per_check = Seq::new(
        rv.len(),
        |i: int| classify_spec(detection_options(rv[i], loc, eff)).checks,
    );
    let mut detections: Vec<ApiDetection> = Vec::new();
    let mut checks: Vec<Check> = Vec::new();
    let mut i: usize = 0;
    assert(per_check.take(0) =~= Seq::<Seq<CheckView>>::empty());
    assert(checks.deep_view() =~= Seq::<CheckView>::empty());
    while i < raw.len()
        invariant
            rv == raw.deep_view(),
            loc == location@,
            eff == effective.deep_view(),
            per_check == Seq::new(
                rv.len(),
                |i: int| classify_spec(detection_options(rv[i], loc, eff)).checks,
            ),
            i <= rv.len(),
            detections@.len() == i,
            forall|j: int|
                0 <= j < i ==> (#[trigger] detections@[j]).deep_view() == classified(
                    rv[j],
                    loc,
                    eff,
                ),
            checks.deep_view() == concat_all(per_check.take(i as int)),
        decreases raw.len() - i,
    {
        let d = &raw[i];
        assert(d.deep_view() == rv[i as int]);
        let report = classify(
            ClassifyOptions {
                method: d.method.clone(),
                path: d.path.clone(),
                url: None,
                origin: Some(location.clone()),
                permissions: Some(effective.copy()),
            },
        );
        proof {
            text::lemma_concat_all_take(per_check, i as int);
        }
        let ghost before = checks.deep_view();
        let mut report_checks = report.checks;
        let ghost more = report_checks.deep_view();
        checks.append(&mut report_checks);
        assert(checks.deep_view() =~= before + more);
        let nd = ApiDetection {
            origin: d.origin,
            label: d.label.clone(),
            method: d.method.clone(),
            path: d.path.clone(),
            classification: report.classification,
            catalog_match: report.catalog_match,
            satisfied: report.satisfied,
            missing_permissions: report.missing_permissions,
            unsupported_reason: report.unsupported_reason,
        };
        assert(nd.deep_view() =~= classified(rv[i as int], loc, eff));
        detections.push(nd);
        i += 1;
    }
    assert(per_check.take(i as int) =~= per_check);
    let r = StepApiReport { step_index: index, step_name, uses, detections, checks };
    assert(r.deep_view().detections =~= scan_step_spec(job_id@, index, step_map@, effective.deep_view()).detections);
    r
}

/// The status counts of a step's checks.
pub fn step_summary(step: &StepApiReport) -> (s: ReceiptSummary)
    ensures
        summarizes(s, step.checks.deep_view()),
{
    ReceiptSummary::from_checks(step.checks.as_slice())
}

/// The checks and step reports of a job's `steps:` sequence, in order; entries
/// that are not mappings are skipped with a warning.
pub open spec fn steps_fold(job_id: Seq<char>, steps: Seq<YamlValue>, effective: PermissionSetView) -> (
    Seq<CheckView>,
    Seq<StepApiReportView>,
)
    decreases steps.len(),
{
    if steps.len() == 0 {
        (Seq::empty(), Seq::empty())
    } else {
        let (checks, reports) = steps_fold(job_id, steps.drop_last(), effective);
        let index = (steps.len() - 1) as usize;
        match steps.last() {
            YamlValue::Mapping(m) => (
                checks,
                reports.push(scan_step_spec(job_id, index, m@, effective)),
            ),
            _ => (
                checks.push(
                    check_of(
                        "workflow.step_not_mapping"@,
                        CheckStatus::Warn,
                        "job '"@ + job_id + "' step "@ + decimal(index as nat)
                            + " is not a mapping"@,
                    ),
                ),
                reports,
            ),
        }
    }
}

/// The checks of each step.
pub open spec fn step_checks(steps: Seq<StepApiReportView>) -> Seq<Seq<CheckView>> {
    Seq::new(steps.len(), |i: int| steps[i].checks)
}

/// Every check a job report counts: its own, its resolution's and its steps'.
pub open spec fn job_all_checks(j: JobApiReportView) -> Seq<CheckView> {
    j.checks + j.permissions.checks + concat_all(step_checks(j.steps))
}

/// The report of a job: its permissions resolved against the workflow block,
/// each step scanned against the effective set, and a summary of every check.
pub open spec fn scan_job_spec(
    job_id: Seq<char>,
    job: Seq<(YamlValue, YamlValue)>,
    workflow_permissions: Option<PermissionSetView>,
) -> JobApiReportView {
    let (job_permissions, perm_checks) = yaml_block_spec(mapping_get_spec(job, "permissions"@));
    let resolution = resolve_spec(workflow_permissions, job_permissions, PermissionScope::Job);
    let (more_checks, steps) = match mapping_get_spec(job, "steps"@) {
        Some(YamlValue::Sequence(s)) => steps_fold(job_id, s@, resolution.effective),
        _ => (Seq::empty(), Seq::empty()),
    };
    let base = JobApiReportView {
        job_id,
        permissions: resolution,
        steps,
        summary: ReceiptSummary { passed: 0, warnings: 0, failed: 0, skipped: 0 },
        checks: perm_checks + more_checks,
    };
    JobApiReportView { summary: summary_of(job_all_checks(base)), ..base }
}

/// The report of one job of a workflow.
pub fn scan_job(
    job_id: &str,
    job_map: &Vec<(YamlValue, YamlValue)>,
    workflow_permissions: Option<&PermissionSet>,
) -> (r: JobApiReport)
    ensures
        r.deep_view() == scan_job_spec(
            job_id@,
            job_map@,
            crate::call::opt_set_view(workflow_permissions),
        ),
        summarizes(r.summary, job_all_checks(r.deep_view())),
{
    let ghost spec = scan_job_spec(
        job_id@,
        job_map@,
        crate::call::opt_set_view(workflow_permissions),
    );
    let mut checks: Vec<Check> = Vec::new();
    let job_permissions_yaml = mapping_get(job_map, "permissions");
    let (job_permissions, mut perm_checks) = permissions::parse_yaml_block(job_permissions_yaml);
    checks.append(&mut perm_checks);
    let wf = match workflow_permissions {
        Some(s) => Some(s.copy()),
        None => None,
    };
    let resolution = permissions::resolve(wf, job_permissions, PermissionScope::Job);
    let effective = resolution.effective.copy();
    let ghost eff = effective.deep_view();
    let ghost base_checks = checks.deep_view();
    let mut steps_reports: Vec<StepApiReport> = Vec::new();
    let steps_value = mapping_get(job_map, "steps");
    if let Some(YamlValue::Sequence(steps)) = steps_value {
        let ghost sv = steps@;
        let mut index: usize = 0;
        assert(sv.take(0) =~= Seq::<YamlValue>::empty());
        assert(checks.deep_view() =~= base_checks + Seq::<CheckView>::empty());
        assert(steps_reports.deep_view() =~= Seq::<StepApiReportView>::empty());
        while index < steps.len()
            invariant
                sv == steps@,
                eff == effective.deep_view(),
                index <= sv.len(),
                checks.deep_view() == base_checks + steps_fold(job_id@, sv.take(index as int), eff).0,
                steps_reports.deep_view() == steps_fold(job_id@, sv.take(index as int), eff).1,
            decreases steps.len() - index,
        {
            assert(sv.take(index + 1).drop_last() =~= sv.take(index as int));
            assert(sv.take(index + 1).last() == sv[index as int]);
            let ghost before_checks = checks.deep_view();
            let ghost before_reports = steps_reports.deep_view();
            match &steps[index] {
                YamlValue::Mapping(step_map) => {
                    let report = scan_step(job_id, index, step_map, &effective);
                    steps_reports.push(report);
                    assert(steps_reports.deep_view() =~= before_reports.push(report.deep_view()));
                },
                _ => {
                    let mut message = text::cat3("job '", job_id, "' step ");
                    let idx = text::usize_to_string(index);
                    message.append(idx.as_str());
                    message.append(" is not a mapping");
                    let c = Check::warn(text::own("workflow.step_not_mapping"), message);
                    checks.push(c);
                    assert(checks.deep_view() =~= before_checks.push(c.deep_view()));
                },
            }
            index += 1;
        }
        assert(sv.take(index as int) =~= sv);
    } else {
        assert(checks.deep_view() =~= base_checks + Seq::<CheckView>::empty());
        assert(steps_reports.deep_view() =~= Seq::<StepApiReportView>::empty());
    }
    let ghost sr = steps_reports.deep_view();
    assert(checks.deep_view() == spec.checks);
    assert(sr == spec.steps);
    let mut r = JobApiReport {
        job_id: text::own(job_id),
        permissions: resolution,
        steps: steps_reports,
        summary: ReceiptSummary { passed: 0, warnings: 0, failed: 0, skipped: 0 },
        checks,
    };
    let mut statuses: Vec<CheckStatus> = Vec::new();
    push_job_statuses(&mut statuses, &r);
    assert(job_all_checks(r.deep_view()) == job_all_checks(spec));
    r.summary = summary_of_statuses(&statuses, Ghost(job_all_checks(spec)));
    proof {
        lemma_summary_of(r.summary, job_all_checks(spec));
    }
    assert(r.deep_view() =~= spec);
    r
}

/// Appends the statuses of every check that a job report counts.
fn push_job_statuses(statuses: &mut Vec<CheckStatus>, job: &JobApiReport)
    ensures
        final(statuses)@ == old(statuses)@ + statuses_of(job_all_checks(job.deep_view())),
{
    let ghost start = statuses@;
    let ghost jv = job.deep_view();
    let ghost per_step = step_checks(jv.steps);
    push_statuses(statuses, job.checks.as_slice());
    push_statuses(statuses, job.permissions.checks.as_slice());
    proof {
        lemma_statuses_concat(jv.checks, jv.permissions.checks);
        assert(per_step.take(0) =~= Seq::<Seq<CheckView>>::empty());
        assert(statuses_of(concat_all(per_step.take(0))) =~= Seq::<CheckStatus>::empty());
    }
    let mut k: usize = 0;
    while k < job.steps.len()
        invariant
            jv == job.deep_view(),
            per_step == step_checks(jv.steps),
            k <= jv.steps.len(),
            statuses@ == start + statuses_of(jv.checks + jv.permissions.checks) + statuses_of(
                concat_all(per_step.take(k as int)),
            ),
        decreases job.steps.len() - k,
    {
        push_statuses(statuses, job.steps[k].checks.as_slice());
        proof {
            text::lemma_concat_all_take(per_step, k as int);
            assert(per_step[k as int] == job.steps@[k as int].checks.deep_view());
            lemma_statuses_concat(concat_all(per_step.take(k as int)), per_step[k as int]);
        }
        k += 1;
    }
    proof {
        assert(per_step.take(k as int) =~= per_step);
        lemma_statuses_concat(jv.checks + jv.permissions.checks, concat_all(per_step));
    }
}

/// The checks and job reports of a workflow's `jobs:` mapping, in order;
/// entries with a non-string id or a non-mapping body are skipped with a warning.
pub open spec fn jobs_fold(
    entries: Seq<(YamlValue, YamlValue)>,
    workflow_permissions: Option<PermissionSetView>,
) -> (Seq<CheckView>, Seq<JobApiReportView>)
    decreases entries.len(),
{
    if entries.len() == 0 {
        (Seq::empty(), Seq::empty())
    } else {
        let (checks, jobs) = jobs_fold(entries.drop_last(), workflow_permissions);
        match entries.last().0 {
            YamlValue::Text(id) => match entries.last().1 {
                YamlValue::Mapping(m) => (
                    checks,
                    jobs.push(scan_job_spec(id@, m@, workflow_permissions)),
                ),
                _ => (
                    checks.push(
                        check_of(
                            "workflow.job_not_mapping"@,
                            CheckStatus::Warn,
                            "job '"@ + id@ + "' is not a mapping"@,
                        ),
                    ),
                    jobs,
                ),
            },
            _ => (
                checks.push(
                    check_of(
                        "workflow.non_string_job_id"@,
                        CheckStatus::Warn,
                        "skipping job with non-string id"@,
                    ),
                ),
                jobs,
            ),
        }
    }
}

/// Every check that the job reports count, job after job.
pub open spec fn jobs_all_checks(jobs: Seq<JobApiReportView>) -> Seq<CheckView> {
    concat_all(Seq::new(jobs.len(), |i: int| job_all_checks(jobs[i])))
}

/// What a workflow report's summary counts. The checks of the workflow-level
/// permissions block are counted twice: once before the jobs and once among
/// all workflow checks.
pub open spec fn workflow_counted(
    permission_checks: Seq<CheckView>,
    jobs: Seq<JobApiReportView>,
    checks: Seq<CheckView>,
) -> Seq<CheckView> {
    permission_checks + jobs_all_checks(jobs) + checks
}

/// The report of a workflow document.
pub open spec fn scan_workflow_spec(workflow: Seq<char>, value: YamlValue) -> WorkflowReportView {
    match value {
        YamlValue::Mapping(root) => {
            let (wf_perms, wf_checks) = yaml_block_spec(mapping_get_spec(root@, "permissions"@));
            let (checks, jobs) = match mapping_get_spec(root@, "jobs"@) {
                Some(YamlValue::Mapping(jm)) => {
                    let (c, j) = jobs_fold(jm@, wf_perms);
                    (wf_checks + c, j)
                },
                None => (
                    wf_checks.push(
                        check_of(
                            "workflow.no_jobs"@,
                            CheckStatus::Warn,
                            "workflow has no `jobs:` mapping"@,
                        ),
                    ),
                    Seq::empty(),
                ),
                Some(_) => (
                    wf_checks.push(
                        check_of(
                            "workflow.jobs_not_mapping"@,
                            CheckStatus::Fail,
                            "`jobs:` must be a mapping"@,
                        ),
                    ),
                    Seq::empty(),
                ),
            };
            WorkflowReportView {
                workflow,
                workflow_permissions: wf_perms,
                jobs,
                summary: summary_of(workflow_counted(wf_checks, jobs, checks)),
                checks,
            }
        },
        _ => {
            let checks = seq![
                check_of(
                    "workflow.invalid_root"@,
                    CheckStatus::Fail,
                    "workflow root must be a YAML mapping"@,
                ),
            ];
            WorkflowReportView {
                workflow,
                workflow_permissions: None,
                jobs: Seq::empty(),
                summary: summary_of(checks),
                checks,
            }
        },
    }
}

/// Everything the summary of a workflow document counts.
pub open spec fn scan_workflow_counted(value: YamlValue) -> Seq<CheckView> {
    match value {
        YamlValue::Mapping(root) => {
            let r = scan_workflow_spec(Seq::empty(), value);
            let wf_checks = yaml_block_spec(mapping_get_spec(root@, "permissions"@)).1;
            workflow_counted(wf_checks, r.jobs, r.checks)
        },
        _ => scan_workflow_spec(Seq::empty(), value).checks,
    }
}

proof fn lemma_jobs_all_push(jobs: Seq<JobApiReportView>, j: JobApiReportView)
    ensures
        jobs_all_checks(jobs.push(j)) == jobs_all_checks(jobs) + job_all_checks(j),
{
    let f = Seq::new(jobs.push(j).len(), |i: int| job_all_checks(jobs.push(j)[i]));
    assert(f.drop_last() =~= Seq::new(jobs.len(), |i: int| job_all_checks(jobs[i])));
}

/// The report of a workflow whose root is not a mapping.
fn invalid_root_report(workflow: String) -> (r: WorkflowReport)
    ensures
        r.deep_view() == scan_workflow_spec(workflow@, YamlValue::Null),
{
    let mut checks: Vec<Check> = Vec::new();
    let c = Check::fail(
        text::own("workflow.invalid_root"),
        text::own("workflow root must be a YAML mapping"),
    );
    checks.push(c);
    let summary = ReceiptSummary::from_checks(checks.as_slice());
    let ghost expected = seq![
        check_of("workflow.invalid_root"@, CheckStatus::Fail, "workflow root must be a YAML mapping"@),
    ];
    assert(checks.deep_view() =~= expected);
    proof {
        lemma_summary_of(summary, checks.deep_view());
    }
    let r = WorkflowReport {
        workflow,
        workflow_permissions: None,
        jobs: Vec::new(),
        summary,
        checks,
    };
    assert(r.deep_view().jobs =~= Seq::<JobApiReportView>::empty());
    assert(r.deep_view() =~= scan_workflow_spec(workflow@, YamlValue::Null));
    r
}

/// Scans the entries of a `jobs:` mapping, appending workflow-level checks to
/// `checks` and the status of every check the jobs count to `statuses`.
fn scan_jobs(
    jobs_map: &Vec<(YamlValue, YamlValue)>,
    workflow_permissions: Option<&PermissionSet>,
    checks: &mut Vec<Check>,
    statuses: &mut Vec<CheckStatus>,
    Ghost(wf_checks): Ghost<Seq<CheckView>>,
) -> (jobs: Vec<JobApiReport>)
    requires
        old(checks).deep_view() == wf_checks,
        old(statuses)@ == statuses_of(wf_checks),
    ensures
        final(checks).deep_view() == wf_checks + jobs_fold(
            jobs_map@,
            crate::call::opt_set_view(workflow_permissions),
        ).0,
        jobs.deep_view() == jobs_fold(jobs_map@, crate::call::opt_set_view(workflow_permissions)).1,
        final(statuses)@ == statuses_of(wf_checks + jobs_all_checks(jobs.deep_view())),
{
    let ghost jm = jobs_map@;
    let ghost wfp = crate::call::opt_set_view(workflow_permissions);
    let ghost final_fold = jobs_fold(jm, wfp);
    let mut jobs: Vec<JobApiReport> = Vec::new();
    let mut i: usize = 0;
    assert(jm.take(0) =~= Seq::<(YamlValue, YamlValue)>::empty());
    assert(checks.deep_view() =~= wf_checks + Seq::<CheckView>::empty());
    assert(jobs.deep_view() =~= Seq::<JobApiReportView>::empty());
    assert(jobs_all_checks(Seq::<JobApiReportView>::empty()) =~= Seq::<CheckView>::empty());
    assert(wf_checks + jobs_all_checks(jobs.deep_view()) =~= wf_checks);
    while i < jobs_map.len()
        invariant
            jm == jobs_map@,
            wfp == crate::call::opt_set_view(workflow_permissions),
            final_fold == jobs_fold(jm, wfp),
            i <= jm.len(),
            checks.deep_view() == wf_checks + jobs_fold(jm.take(i as int), wfp).0,
            jobs.deep_view() == jobs_fold(jm.take(i as int), wfp).1,
            statuses@ == statuses_of(wf_checks + jobs_all_checks(jobs.deep_view())),
        decreases jobs_map.len() - i,
    {
        let ghost e = jm.take(i + 1);
        assert(e.drop_last() =~= jm.take(i as int));
        assert(e.last() == jm[i as int]);
        let ghost before_checks = checks.deep_view();
        let ghost before_jobs = jobs.deep_view();
        let key = &jobs_map[i].0;
        let job_value = &jobs_map[i].1;
        match key {
            YamlValue::Text(job_id) => {
                match job_value {
                    YamlValue::Mapping(job_map) => {
                        let ghost js = scan_job_spec(job_id@, job_map@, wfp);
                        proof {
                            lemma_jobs_all_push(before_jobs, js);
                        }
                        let job_report = scan_job(job_id.as_str(), job_map, workflow_permissions);
                        push_job_statuses(statuses, &job_report);
                        proof {
                            lemma_statuses_concat(
                                wf_checks + jobs_all_checks(before_jobs),
                                job_all_checks(js),
                            );
                        }
                        jobs.push(job_report);
                        assert(jobs.deep_view() =~= before_jobs.push(js));
                        assert(wf_checks + jobs_all_checks(jobs.deep_view()) =~= (wf_checks
                            + jobs_all_checks(before_jobs)) + job_all_checks(js));
                    },
                    _ => {
                        let c = Check::warn(
                            text::own("workflow.job_not_mapping"),
                            text::cat3("job '", job_id.as_str(), "' is not a mapping"),
                        );
                        checks.push(c);
                        assert(checks.deep_view() =~= before_checks.push(c.deep_view()));
                    },
                }
            },
            _ => {
                let c = Check::warn(
                    text::own("workflow.non_string_job_id"),
                    text::own("skipping job with non-string id"),
                );
                checks.push(c);
                assert(checks.deep_view() =~= before_checks.push(c.deep_view()));
            },
        }
        i += 1;
    }
    assert(jm.take(i as int) =~= jm);
    jobs
}

/// The report of a parsed workflow document.
pub fn scan_workflow_document(workflow: String, value: &YamlValue) -> (r: WorkflowReport)
    ensures
        r.deep_view() == scan_workflow_spec(workflow@, *value),
{
    let ghost spec = scan_workflow_spec(workflow@, *value);
    let YamlValue::Mapping(root) = value else {
        return invalid_root_report(workflow);
    };
    let mut checks: Vec<Check> = Vec::new();
    let workflow_permissions_yaml = mapping_get(root, "permissions");
    let (workflow_permissions, mut workflow_checks) = permissions::parse_yaml_block(
        workflow_permissions_yaml,
    );
    checks.append(&mut workflow_checks);
    let ghost wf_checks = checks.deep_view();
    let ghost wfp = workflow_permissions.deep_view();
    let jobs_yaml = mapping_get(root, "jobs");
    let mut statuses: Vec<CheckStatus> = Vec::new();
    push_statuses(&mut statuses, checks.as_slice());
    assert(statuses@ =~= statuses_of(wf_checks));
    let ghost counted_total = scan_workflow_counted(*value);
    let jobs: Vec<JobApiReport>;
    match jobs_yaml {
        Some(YamlValue::Mapping(jobs_map)) => {
            jobs = scan_jobs(
                jobs_map,
                workflow_permissions.as_ref(),
                &mut checks,
                &mut statuses,
                Ghost(wf_checks),
            );
        },
        None => {
            jobs = Vec::new();
            checks.push(
                Check::warn(
                    text::own("workflow.no_jobs"),
                    text::own("workflow has no `jobs:` mapping"),
                ),
            );
            assert(jobs_all_checks(jobs.deep_view()) =~= Seq::<CheckView>::empty());
            assert(wf_checks + jobs_all_checks(jobs.deep_view()) =~= wf_checks);
        },
        Some(_) => {
            jobs = Vec::new();
            checks.push(
                Check::fail(
                    text::own("workflow.jobs_not_mapping"),
                    text::own("`jobs:` must be a mapping"),
                ),
            );
            assert(jobs_all_checks(jobs.deep_view()) =~= Seq::<CheckView>::empty());
            assert(wf_checks + jobs_all_checks(jobs.deep_view()) =~= wf_checks);
        },
    }
    assert(jobs.deep_view() == spec.jobs);
    assert(checks.deep_view() == spec.checks);
    assert(counted_total =~= wf_checks + jobs_all_checks(jobs.deep_view()) + checks.deep_view());
    push_statuses(&mut statuses, checks.as_slice());
    proof {
        lemma_statuses_concat(wf_checks + jobs_all_checks(jobs.deep_view()), checks.deep_view());
    }
    let summary = summary_of_statuses(&statuses, Ghost(counted_total));
    proof {
        lemma_summary_of(summary, counted_total);
    }
    let r = WorkflowReport { workflow, workflow_permissions, jobs, summary, checks };
    assert(r.deep_view() =~= spec);
    r
}

} // verus!
