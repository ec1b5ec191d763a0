//! The curated catalog of CI-relevant REST endpoints and path matching.

use vstd::prelude::*;

use crate::model::{
    CatalogMatch, CatalogMatchView, Compatibility, PermissionKey, PermissionLevel,
    RequiredPermission,
};
use crate::text;
use crate::text::{
    ascii_upper_seq, eq_ignore_case_seq, is_ascii_seq, find_char, split_seq, strip_leading, strip_trailing, trim_seq,
    uppercase_of,
};

verus! {

/// The number of entries in the catalog.
pub const CATALOG_LEN: usize = 69;

#[derive(Debug)]
pub struct EndpointEntry {
    pub id: &'static str,
    pub method: &'static str,
    pub path_template: &'static str,
    pub category: &'static str,
    pub required: &'static [(PermissionKey, PermissionLevel)],
    pub classification: Compatibility,
    pub side_effect: &'static str,
}

#[verifier::ext_equal]
pub struct EndpointView {
    pub id: Seq<char>,
    pub method: Seq<char>,
    pub path_template: Seq<char>,
    pub category: Seq<char>,
    pub required: Seq<(PermissionKey, PermissionLevel)>,
    pub classification: Compatibility,
    pub side_effect: Seq<char>,
}

impl DeepView for EndpointEntry {
    type V = EndpointView;

    open spec fn deep_view(&self) -> EndpointView {
        EndpointView {
            id: self.id@,
            method: self.method@,
            path_template: self.path_template@,
            category: self.category@,
            required: self.required@,
            classification: self.classification,
            side_effect: self.side_effect@,
        }
    }
}

/// The `i`-th entry of the catalog, in matching order.
pub open spec fn catalog_entry(i: int) -> EndpointView {
    if i == 0 {
        EndpointView {
            id: "repos.get"@,
            method: "GET"@,
            path_template: "/repos/{owner}/{repo}"@,
            category: "repos"@,
            required: seq![(PermissionKey::Contents, PermissionLevel::Read)],
            classification: Compatibility::Simulated,
            side_effect: "Read repository metadata; ci-forge serves deterministic stub."@,
        }
    } else if i == 1 {
        EndpointView {
            id: "contents.get"@,
            method: "GET"@,
            path_template: "/repos/{owner}/{repo}/contents/{path}"@,
            category: "contents"@,
            required: seq![(PermissionKey::Contents, PermissionLevel::Read)],
            classification: Compatibility::Simulated,
            side_effect: "Read file contents; ci-forge serves from local workspace."@,
        }
    } else if i == 2 {
        EndpointView {
            id: "contents.put"@,
            method: "PUT"@,
            path_template: "/repos/{owner}/{repo}/contents/{path}"@,
            category: "contents"@,
            required: seq![(PermissionKey::Contents, PermissionLevel::Write)],
            classification: Compatibility::Simulated,
            side_effect: "Create or update file; ci-forge mutates local workspace."@,
        }
    } else if i == 3 {
        EndpointView {
            id: "contents.delete"@,
            method: "DELETE"@,
            path_template: "/repos/{owner}/{repo}/contents/{path}"@,
            category: "contents"@,
            required: seq![(PermissionKey::Contents, PermissionLevel::Write)],
            classification: Compatibility::Simulated,
            side_effect: "Delete file; ci-forge mutates local workspace."@,
        }
    } else if i == 4 {
        EndpointView {
            id: "git.refs.get"@,
            method: "GET"@,
            path_template: "/repos/{owner}/{repo}/git/refs/{ref}"@,
            category: "git-refs"@,
            required: seq![(PermissionKey::Contents, PermissionLevel::Read)],
            classification: Compatibility::Simulated,
            side_effect: "Read git ref; ci-forge serves from local repository."@,
        }
    } else if i == 5 {
        EndpointView {
            id: "git.refs.create"@,
            method: "POST"@,
            path_template: "/repos/{owner}/{repo}/git/refs"@,
            category: "git-refs"@,
            required: seq![(PermissionKey::Contents, PermissionLevel::Write)],
            classification: Compatibility::Simulated,
            side_effect: "Create git ref; ci-forge mutates local repository."@,
        }
    } else if i == 6 {
        EndpointView {
            id: "git.refs.update"@,
            method: "PATCH"@,
            path_template: "/repos/{owner}/{repo}/git/refs/{ref}"@,
            category: "git-refs"@,
            required: seq![(PermissionKey::Contents, PermissionLevel::Write)],
            classification: Compatibility::Simulated,
            side_effect: "Update git ref; ci-forge mutates local repository."@,
        }
    } else if i == 7 {
        EndpointView {
            id: "git.refs.delete"@,
            method: "DELETE"@,
            path_template: "/repos/{owner}/{repo}/git/refs/{ref}"@,
            category: "git-refs"@,
            required: seq![(PermissionKey::Contents, PermissionLevel::Write)],
            classification: Compatibility::Simulated,
            side_effect: "Delete git ref; ci-forge mutates local repository."@,
        }
    } else if i == 8 {
        EndpointView {
            id: "git.tags.get"@,
            method: "GET"@,
            path_template: "/repos/{owner}/{repo}/git/tags/{sha}"@,
            category: "git-tags"@,
            required: seq![(PermissionKey::Contents, PermissionLevel::Read)],
            classification: Compatibility::Simulated,
            side_effect: "Read git tag; ci-forge serves from local repository."@,
        }
    } else if i == 9 {
        EndpointView {
            id: "git.tags.create"@,
            method: "POST"@,
            path_template: "/repos/{owner}/{repo}/git/tags"@,
            category: "git-tags"@,
            required: seq![(PermissionKey::Contents, PermissionLevel::Write)],
            classification: Compatibility::Simulated,
            side_effect: "Create annotated tag; ci-forge mutates local repository."@,
        }
    } else if i == 10 {
        EndpointView {
            id: "releases.list"@,
            method: "GET"@,
            path_template: "/repos/{owner}/{repo}/releases"@,
            category: "releases"@,
            required: seq![(PermissionKey::Contents, PermissionLevel::Read)],
            classification: Compatibility::Simulated,
            side_effect: "List releases; ci-forge serves from local release store."@,
        }
    } else if i == 11 {
        EndpointView {
            id: "releases.create"@,
            method: "POST"@,
            path_template: "/repos/{owner}/{repo}/releases"@,
            category: "releases"@,
            required: seq![(PermissionKey::Contents, PermissionLevel::Write)],
            classification: Compatibility::Simulated,
            side_effect: "Create release; ci-forge persists to local release store."@,
        }
    } else if i == 12 {
        EndpointView {
            id: "releases.get"@,
            method: "GET"@,
            path_template: "/repos/{owner}/{repo}/releases/{id}"@,
            category: "releases"@,
            required: seq![(PermissionKey::Contents, PermissionLevel::Read)],
            classification: Compatibility::Simulated,
            side_effect: "Get release by id; ci-forge serves from local release store."@,
        }
    } else if i == 13 {
        EndpointView {
            id: "releases.update"@,
            method: "PATCH"@,
            path_template: "/repos/{owner}/{repo}/releases/{id}"@,
            category: "releases"@,
            required: seq![(PermissionKey::Contents, PermissionLevel::Write)],
            classification: Compatibility::Simulated,
            side_effect: "Edit release metadata; ci-forge mutates local release store."@,
        }
    } else if i == 14 {
        EndpointView {
            id: "releases.delete"@,
            method: "DELETE"@,
            path_template: "/repos/{owner}/{repo}/releases/{id}"@,
            category: "releases"@,
            required: seq![(PermissionKey::Contents, PermissionLevel::Write)],
            classification: Compatibility::Simulated,
            side_effect: "Delete release; ci-forge mutates local release store."@,
        }
    } else if i == 15 {
        EndpointView {
            id: "releases.latest"@,
            method: "GET"@,
            path_template: "/repos/{owner}/{repo}/releases/latest"@,
            category: "releases"@,
            required: seq![(PermissionKey::Contents, PermissionLevel::Read)],
            classification: Compatibility::Simulated,
            side_effect: "Get latest release; ci-forge serves from local release store."@,
        }
    } else if i == 16 {
        EndpointView {
            id: "releases.by_tag"@,
            method: "GET"@,
            path_template: "/repos/{owner}/{repo}/releases/tags/{tag}"@,
            category: "releases"@,
            required: seq![(PermissionKey::Contents, PermissionLevel::Read)],
            classification: Compatibility::Simulated,
            side_effect: "Get release by tag; ci-forge serves from local release store."@,
        }
    } else if i == 17 {
        EndpointView {
            id: "releases.assets.list"@,
            method: "GET"@,
            path_template: "/repos/{owner}/{repo}/releases/{id}/assets"@,
            category: "release-assets"@,
            required: seq![(PermissionKey::Contents, PermissionLevel::Read)],
            classification: Compatibility::Simulated,
            side_effect: "List release assets; ci-forge serves from local release store."@,
        }
    } else if i == 18 {
        EndpointView {
            id: "releases.assets.upload"@,
            method: "POST"@,
            path_template: "/repos/{owner}/{repo}/releases/{id}/assets"@,
            category: "release-assets"@,
            required: seq![(PermissionKey::Contents, PermissionLevel::Write)],
            classification: Compatibility::Simulated,
            side_effect: "Upload release asset; ci-forge persists asset to local release store."@,
        }
    } else if i == 19 {
        EndpointView {
            id: "releases.assets.delete"@,
            method: "DELETE"@,
            path_template: "/repos/{owner}/{repo}/releases/assets/{id}"@,
            category: "release-assets"@,
            required: seq![(PermissionKey::Contents, PermissionLevel::Write)],
            classification: Compatibility::Simulated,
            side_effect: "Delete release asset; ci-forge mutates local release store."@,
        }
    } else if i == 20 {
        EndpointView {
            id: "releases.assets.get"@,
            method: "GET"@,
            path_template: "/repos/{owner}/{repo}/releases/assets/{id}"@,
            category: "release-assets"@,
            required: seq![(PermissionKey::Contents, PermissionLevel::Read)],
            classification: Compatibility::Simulated,
            side_effect: "Get release asset metadata; ci-forge serves from local release store."@,
        }
    } else if i == 21 {
        EndpointView {
            id: "issues.list"@,
            method: "GET"@,
            path_template: "/repos/{owner}/{repo}/issues"@,
            category: "issues"@,
            required: seq![(PermissionKey::Issues, PermissionLevel::Read)],
            classification: Compatibility::Simulated,
            side_effect: "List issues; ci-forge serves empty/stub list offline."@,
        }
    } else if i == 22 {
        EndpointView {
            id: "issues.create"@,
            method: "POST"@,
            path_template: "/repos/{owner}/{repo}/issues"@,
            category: "issues"@,
            required: seq![(PermissionKey::Issues, PermissionLevel::Write)],
            classification: Compatibility::Simulated,
            side_effect: "Create issue; ci-forge logs deterministic stub locally."@,
        }
    } else if i == 23 {
        EndpointView {
            id: "issues.get"@,
            method: "GET"@,
            path_template: "/repos/{owner}/{repo}/issues/{number}"@,
            category: "issues"@,
            required: seq![(PermissionKey::Issues, PermissionLevel::Read)],
            classification: Compatibility::Simulated,
            side_effect: "Get issue; ci-forge serves stub offline."@,
        }
    } else if i == 24 {
        EndpointView {
            id: "issues.update"@,
            method: "PATCH"@,
            path_template: "/repos/{owner}/{repo}/issues/{number}"@,
            category: "issues"@,
            required: seq![(PermissionKey::Issues, PermissionLevel::Write)],
            classification: Compatibility::Simulated,
            side_effect: "Update issue; ci-forge logs stub mutation locally."@,
        }
    } else if i == 25 {
        EndpointView {
            id: "issues.comments.list"@,
            method: "GET"@,
            path_template: "/repos/{owner}/{repo}/issues/{number}/comments"@,
            category: "issue-comments"@,
            required: seq![(PermissionKey::Issues, PermissionLevel::Read)],
            classification: Compatibility::Simulated,
            side_effect: "List issue comments; ci-forge serves stub locally."@,
        }
    } else if i == 26 {
        EndpointView {
            id: "issues.comments.create"@,
            method: "POST"@,
            path_template: "/repos/{owner}/{repo}/issues/{number}/comments"@,
            category: "issue-comments"@,
            required: seq![(PermissionKey::Issues, PermissionLevel::Write)],
            classification: Compatibility::Simulated,
            side_effect: "Create issue comment; ci-forge logs stub mutation locally."@,
        }
    } else if i == 27 {
        EndpointView {
            id: "issues.labels.list"@,
            method: "GET"@,
            path_template: "/repos/{owner}/{repo}/issues/{number}/labels"@,
            category: "issue-labels"@,
            required: seq![(PermissionKey::Issues, PermissionLevel::Read)],
            classification: Compatibility::Simulated,
            side_effect: "List labels on issue; ci-forge serves stub locally."@,
        }
    } else if i == 28 {
        EndpointView {
            id: "issues.labels.add"@,
            method: "POST"@,
            path_template: "/repos/{owner}/{repo}/issues/{number}/labels"@,
            category: "issue-labels"@,
            required: seq![(PermissionKey::Issues, PermissionLevel::Write)],
            classification: Compatibility::Simulated,
            side_effect: "Add labels to issue; ci-forge logs stub mutation locally."@,
        }
    } else if i == 29 {
        EndpointView {
            id: "issues.labels.remove"@,
            method: "DELETE"@,
            path_template: "/repos/{owner}/{repo}/issues/{number}/labels/{name}"@,
            category: "issue-labels"@,
            required: seq![(PermissionKey::Issues, PermissionLevel::Write)],
            classification: Compatibility::Simulated,
            side_effect: "Remove label from issue; ci-forge logs stub mutation locally."@,
        }
    } else if i == 30 {
        EndpointView {
            id: "repo.labels.list"@,
            method: "GET"@,
            path_template: "/repos/{owner}/{repo}/labels"@,
            category: "labels"@,
            required: seq![(PermissionKey::Issues, PermissionLevel::Read)],
            classification: Compatibility::Simulated,
            side_effect: "List repo labels; ci-forge serves stub locally."@,
        }
    } else if i == 31 {
        EndpointView {
            id: "pulls.list"@,
            method: "GET"@,
            path_template: "/repos/{owner}/{repo}/pulls"@,
            category: "pulls"@,
            required: seq![(PermissionKey::PullRequests, PermissionLevel::Read)],
            classification: Compatibility::Simulated,
            side_effect: "List pull requests; ci-forge serves stub locally."@,
        }
    } else if i == 32 {
        EndpointView {
            id: "pulls.create"@,
            method: "POST"@,
            path_template: "/repos/{owner}/{repo}/pulls"@,
            category: "pulls"@,
            required: seq![(PermissionKey::PullRequests, PermissionLevel::Write)],
            classification: Compatibility::Simulated,
            side_effect: "Create pull request; ci-forge logs stub mutation locally."@,
        }
    } else if i == 33 {
        EndpointView {
            id: "pulls.get"@,
            method: "GET"@,
            path_template: "/repos/{owner}/{repo}/pulls/{number}"@,
            category: "pulls"@,
            required: seq![(PermissionKey::PullRequests, PermissionLevel::Read)],
            classification: Compatibility::Simulated,
            side_effect: "Get pull request; ci-forge serves stub locally."@,
        }
    } else if i == 34 {
        EndpointView {
            id: "pulls.update"@,
            method: "PATCH"@,
            path_template: "/repos/{owner}/{repo}/pulls/{number}"@,
            category: "pulls"@,
            required: seq![(PermissionKey::PullRequests, PermissionLevel::Write)],
            classification: Compatibility::Simulated,
            side_effect: "Update pull request; ci-forge logs stub mutation locally."@,
        }
    } else if i == 35 {
        EndpointView {
            id: "pulls.reviews.list"@,
            method: "GET"@,
            path_template: "/repos/{owner}/{repo}/pulls/{number}/reviews"@,
            category: "pull-reviews"@,
            required: seq![(PermissionKey::PullRequests, PermissionLevel::Read)],
            classification: Compatibility::Simulated,
            side_effect: "List PR reviews; ci-forge serves stub locally."@,
        }
    } else if i == 36 {
        EndpointView {
            id: "pulls.reviews.create"@,
            method: "POST"@,
            path_template: "/repos/{owner}/{repo}/pulls/{number}/reviews"@,
            category: "pull-reviews"@,
            required: seq![(PermissionKey::PullRequests, PermissionLevel::Write)],
            classification: Compatibility::Simulated,
            side_effect: "Create PR review; ci-forge logs stub mutation locally."@,
        }
    } else if i == 37 {
        EndpointView {
            id: "pulls.comments.create"@,
            method: "POST"@,
            path_template: "/repos/{owner}/{repo}/pulls/{number}/comments"@,
            category: "pull-comments"@,
            required: seq![(PermissionKey::PullRequests, PermissionLevel::Write)],
            classification: Compatibility::Simulated,
            side_effect: "Create PR review comment; ci-forge logs stub mutation locally."@,
        }
    } else if i == 38 {
        EndpointView {
            id: "checks.runs.create"@,
            method: "POST"@,
            path_template: "/repos/{owner}/{repo}/check-runs"@,
            category: "checks"@,
            required: seq![(PermissionKey::Checks, PermissionLevel::Write)],
            classification: Compatibility::Simulated,
            side_effect: "Create check run; ci-forge persists stub check locally."@,
        }
    } else if i == 39 {
        EndpointView {
            id: "checks.runs.update"@,
            method: "PATCH"@,
            path_template: "/repos/{owner}/{repo}/check-runs/{id}"@,
            category: "checks"@,
            required: seq![(PermissionKey::Checks, PermissionLevel::Write)],
            classification: Compatibility::Simulated,
            side_effect: "Update check run; ci-forge mutates stub check locally."@,
        }
    } else if i == 40 {
        EndpointView {
            id: "checks.runs.get"@,
            method: "GET"@,
            path_template: "/repos/{owner}/{repo}/check-runs/{id}"@,
            category: "checks"@,
            required: seq![(PermissionKey::Checks, PermissionLevel::Read)],
            classification: Compatibility::Simulated,
            side_effect: "Get check run; ci-forge serves stub check locally."@,
        }
    } else if i == 41 {
        EndpointView {
            id: "checks.runs.list_for_commit"@,
            method: "GET"@,
            path_template: "/repos/{owner}/{repo}/commits/{sha}/check-runs"@,
            category: "checks"@,
            required: seq![(PermissionKey::Checks, PermissionLevel::Read)],
            classification: Compatibility::Simulated,
            side_effect: "List check runs for commit; ci-forge serves stub list locally."@,
        }
    } else if i == 42 {
        EndpointView {
            id: "checks.suites.list_for_commit"@,
            method: "GET"@,
            path_template: "/repos/{owner}/{repo}/commits/{sha}/check-suites"@,
            category: "checks"@,
            required: seq![(PermissionKey::Checks, PermissionLevel::Read)],
            classification: Compatibility::Simulated,
            side_effect: "List check suites for commit; ci-forge serves stub list locally."@,
        }
    } else if i == 43 {
        EndpointView {
            id: "statuses.create"@,
            method: "POST"@,
            path_template: "/repos/{owner}/{repo}/statuses/{sha}"@,
            category: "statuses"@,
            required: seq![(PermissionKey::Statuses, PermissionLevel::Write)],
            classification: Compatibility::Simulated,
            side_effect: "Create commit status; ci-forge persists stub status locally."@,
        }
    } else if i == 44 {
        EndpointView {
            id: "statuses.list_for_ref"@,
            method: "GET"@,
            path_template: "/repos/{owner}/{repo}/commits/{ref}/statuses"@,
            category: "statuses"@,
            required: seq![(PermissionKey::Statuses, PermissionLevel::Read)],
            classification: Compatibility::Simulated,
            side_effect: "List statuses for ref; ci-forge serves stub list locally."@,
        }
    } else if i == 45 {
        EndpointView {
            id: "statuses.combined_for_ref"@,
            method: "GET"@,
            path_template: "/repos/{owner}/{repo}/commits/{ref}/status"@,
            category: "statuses"@,
            required: seq![(PermissionKey::Statuses, PermissionLevel::Read)],
            classification: Compatibility::Simulated,
            side_effect: "Get combined status for ref; ci-forge serves stub locally."@,
        }
    } else if i == 46 {
        EndpointView {
            id: "actions.runs.list"@,
            method: "GET"@,
            path_template: "/repos/{owner}/{repo}/actions/runs"@,
            category: "actions"@,
            required: seq![(PermissionKey::Actions, PermissionLevel::Read)],
            classification: Compatibility::Simulated,
            side_effect: "List workflow runs; ci-forge serves from local run store."@,
        }
    } else if i == 47 {
        EndpointView {
            id: "actions.runs.get"@,
            method: "GET"@,
            path_template: "/repos/{owner}/{repo}/actions/runs/{id}"@,
            category: "actions"@,
            required: seq![(PermissionKey::Actions, PermissionLevel::Read)],
            classification: Compatibility::Simulated,
            side_effect: "Get workflow run; ci-forge serves from local run store."@,
        }
    } else if i == 48 {
        EndpointView {
            id: "actions.runs.jobs"@,
            method: "GET"@,
            path_template: "/repos/{owner}/{repo}/actions/runs/{id}/jobs"@,
            category: "actions"@,
            required: seq![(PermissionKey::Actions, PermissionLevel::Read)],
            classification: Compatibility::Simulated,
            side_effect: "List jobs for workflow run; ci-forge serves from local run store."@,
        }
    } else if i == 49 {
        EndpointView {
            id: "actions.runs.cancel"@,
            method: "POST"@,
            path_template: "/repos/{owner}/{repo}/actions/runs/{id}/cancel"@,
            category: "actions"@,
            required: seq![(PermissionKey::Actions, PermissionLevel::Write)],
            classification: Compatibility::Simulated,
            side_effect: "Cancel workflow run; ci-forge mutates local run store."@,
        }
    } else if i == 50 {
        EndpointView {
            id: "actions.artifacts.list"@,
            method: "GET"@,
            path_template: "/repos/{owner}/{repo}/actions/artifacts"@,
            category: "actions"@,
            required: seq![(PermissionKey::Actions, PermissionLevel::Read)],
            classification: Compatibility::Simulated,
            side_effect: "List artifacts; ci-forge serves from local artifact store."@,
        }
    } else if i == 51 {
        EndpointView {
            id: "actions.artifacts.get"@,
            method: "GET"@,
            path_template: "/repos/{owner}/{repo}/actions/artifacts/{id}"@,
            category: "actions"@,
            required: seq![(PermissionKey::Actions, PermissionLevel::Read)],
            classification: Compatibility::Simulated,
            side_effect: "Get artifact metadata; ci-forge serves from local artifact store."@,
        }
    } else if i == 52 {
        EndpointView {
            id: "actions.artifacts.list_for_run"@,
            method: "GET"@,
            path_template: "/repos/{owner}/{repo}/actions/runs/{id}/artifacts"@,
            category: "actions"@,
            required: seq![(PermissionKey::Actions, PermissionLevel::Read)],
            classification: Compatibility::Simulated,
            side_effect: "List run artifacts; ci-forge serves from local artifact store."@,
        }
    } else if i == 53 {
        EndpointView {
            id: "actions.caches.list"@,
            method: "GET"@,
            path_template: "/repos/{owner}/{repo}/actions/caches"@,
            category: "actions"@,
            required: seq![(PermissionKey::Actions, PermissionLevel::Read)],
            classification: Compatibility::Simulated,
            side_effect: "List caches; ci-forge serves from local cache store."@,
        }
    } else if i == 54 {
        EndpointView {
            id: "actions.workflows.list"@,
            method: "GET"@,
            path_template: "/repos/{owner}/{repo}/actions/workflows"@,
            category: "actions"@,
            required: seq![(PermissionKey::Actions, PermissionLevel::Read)],
            classification: Compatibility::Simulated,
            side_effect: "List workflows; ci-forge serves from local workflow store."@,
        }
    } else if i == 55 {
        EndpointView {
            id: "actions.workflows.dispatch"@,
            method: "POST"@,
            path_template: "/repos/{owner}/{repo}/actions/workflows/{id}/dispatches"@,
            category: "actions"@,
            required: seq![(PermissionKey::Actions, PermissionLevel::Write)],
            classification: Compatibility::Simulated,
            side_effect: "Trigger workflow dispatch; ci-forge enqueues stub run locally."@,
        }
    } else if i == 56 {
        EndpointView {
            id: "deployments.list"@,
            method: "GET"@,
            path_template: "/repos/{owner}/{repo}/deployments"@,
            category: "deployments"@,
            required: seq![(PermissionKey::Deployments, PermissionLevel::Read)],
            classification: Compatibility::Simulated,
            side_effect: "List deployments; ci-forge serves stub list locally."@,
        }
    } else if i == 57 {
        EndpointView {
            id: "deployments.create"@,
            method: "POST"@,
            path_template: "/repos/{owner}/{repo}/deployments"@,
            category: "deployments"@,
            required: seq![(PermissionKey::Deployments, PermissionLevel::Write)],
            classification: Compatibility::Simulated,
            side_effect: "Create deployment; ci-forge persists stub deployment locally."@,
        }
    } else if i == 58 {
        EndpointView {
            id: "deployments.get"@,
            method: "GET"@,
            path_template: "/repos/{owner}/{repo}/deployments/{id}"@,
            category: "deployments"@,
            required: seq![(PermissionKey::Deployments, PermissionLevel::Read)],
            classification: Compatibility::Simulated,
            side_effect: "Get deployment; ci-forge serves stub deployment locally."@,
        }
    } else if i == 59 {
        EndpointView {
            id: "deployments.statuses.create"@,
            method: "POST"@,
            path_template: "/repos/{owner}/{repo}/deployments/{id}/statuses"@,
            category: "deployment-statuses"@,
            required: seq![(PermissionKey::Deployments, PermissionLevel::Write)],
            classification: Compatibility::Simulated,
            side_effect: "Create deployment status; ci-forge persists stub status locally."@,
        }
    } else if i == 60 {
        EndpointView {
            id: "deployments.statuses.list"@,
            method: "GET"@,
            path_template: "/repos/{owner}/{repo}/deployments/{id}/statuses"@,
            category: "deployment-statuses"@,
            required: seq![(PermissionKey::Deployments, PermissionLevel::Read)],
            classification: Compatibility::Simulated,
            side_effect: "List deployment statuses; ci-forge serves stub list locally."@,
        }
    } else if i == 61 {
        EndpointView {
            id: "packages.user.list"@,
            method: "GET"@,
            path_template: "/user/packages"@,
            category: "packages"@,
            required: seq![(PermissionKey::Packages, PermissionLevel::Read)],
            classification: Compatibility::Simulated,
            side_effect: "List user packages; ci-forge serves stub list locally."@,
        }
    } else if i == 62 {
        EndpointView {
            id: "packages.org.list"@,
            method: "GET"@,
            path_template: "/orgs/{org}/packages"@,
            category: "packages"@,
            required: seq![(PermissionKey::Packages, PermissionLevel::Read)],
            classification: Compatibility::Simulated,
            side_effect: "List org packages; ci-forge serves stub list locally."@,
        }
    } else if i == 63 {
        EndpointView {
            id: "packages.user.get"@,
            method: "GET"@,
            path_template: "/user/packages/{package_type}/{name}"@,
            category: "packages"@,
            required: seq![(PermissionKey::Packages, PermissionLevel::Read)],
            classification: Compatibility::Simulated,
            side_effect: "Get user package; ci-forge serves stub locally."@,
        }
    } else if i == 64 {
        EndpointView {
            id: "packages.user.delete"@,
            method: "DELETE"@,
            path_template: "/user/packages/{package_type}/{name}"@,
            category: "packages"@,
            required: seq![(PermissionKey::Packages, PermissionLevel::Write)],
            classification: Compatibility::Simulated,
            side_effect: "Delete user package; ci-forge mutates local package store."@,
        }
    } else if i == 65 {
        EndpointView {
            id: "meta.rate_limit"@,
            method: "GET"@,
            path_template: "/rate_limit"@,
            category: "meta"@,
            required: Seq::empty(),
            classification: Compatibility::Exact,
            side_effect: "Read rate limit; deterministic stub matches GitHub response shape exactly."@,
        }
    } else if i == 66 {
        EndpointView {
            id: "meta.user"@,
            method: "GET"@,
            path_template: "/user"@,
            category: "meta"@,
            required: Seq::empty(),
            classification: Compatibility::Exact,
            side_effect: "Authenticated user identity; deterministic stub."@,
        }
    } else if i == 67 {
        EndpointView {
            id: "meta.meta"@,
            method: "GET"@,
            path_template: "/meta"@,
            category: "meta"@,
            required: Seq::empty(),
            classification: Compatibility::Exact,
            side_effect: "GitHub meta info; deterministic stub."@,
        }
    } else if i == 68 {
        EndpointView {
            id: "meta.installation"@,
            method: "GET"@,
            path_template: "/repos/{owner}/{repo}/installation"@,
            category: "meta"@,
            required: Seq::empty(),
            classification: Compatibility::Exact,
            side_effect: "App installation metadata; deterministic stub."@,
        }
    } else {
        EndpointView {
            id: Seq::empty(),
            method: Seq::empty(),
            path_template: Seq::empty(),
            category: Seq::empty(),
            required: Seq::empty(),
            classification: Compatibility::Unsupported,
            side_effect: Seq::empty(),
        }
    }}

/// The `i`-th catalog entry.
pub fn catalog_entry_at(i: usize) -> (e: EndpointEntry)
    requires
        i < CATALOG_LEN,
    ensures
        e.deep_view() == catalog_entry(i as int),
{
    match i {
        0 => EndpointEntry {
            id: "repos.get",
            method: "GET",
            path_template: "/repos/{owner}/{repo}",
            category: "repos",
            required: &[(PermissionKey::Contents, PermissionLevel::Read)],
            classification: Compatibility::Simulated,
            side_effect: "Read repository metadata; ci-forge serves deterministic stub.",
        },
        1 => EndpointEntry {
            id: "contents.get",
            method: "GET",
            path_template: "/repos/{owner}/{repo}/contents/{path}",
            category: "contents",
            required: &[(PermissionKey::Contents, PermissionLevel::Read)],
            classification: Compatibility::Simulated,
            side_effect: "Read file contents; ci-forge serves from local workspace.",
        },
        2 => EndpointEntry {
            id: "contents.put",
            method: "PUT",
            path_template: "/repos/{owner}/{repo}/contents/{path}",
            category: "contents",
            required: &[(PermissionKey::Contents, PermissionLevel::Write)],
            classification: Compatibility::Simulated,
            side_effect: "Create or update file; ci-forge mutates local workspace.",
        },
        3 => EndpointEntry {
            id: "contents.delete",
            method: "DELETE",
            path_template: "/repos/{owner}/{repo}/contents/{path}",
            category: "contents",
            required: &[(PermissionKey::Contents, PermissionLevel::Write)],
            classification: Compatibility::Simulated,
            side_effect: "Delete file; ci-forge mutates local workspace.",
        },
        4 => EndpointEntry {
            id: "git.refs.get",
            method: "GET",
            path_template: "/repos/{owner}/{repo}/git/refs/{ref}",
            category: "git-refs",
            required: &[(PermissionKey::Contents, PermissionLevel::Read)],
            classification: Compatibility::Simulated,
            side_effect: "Read git ref; ci-forge serves from local repository.",
        },
        5 => EndpointEntry {
            id: "git.refs.create",
            method: "POST",
            path_template: "/repos/{owner}/{repo}/git/refs",
            category: "git-refs",
            required: &[(PermissionKey::Contents, PermissionLevel::Write)],
            classification: Compatibility::Simulated,
            side_effect: "Create git ref; ci-forge mutates local repository.",
        },
        6 => EndpointEntry {
            id: "git.refs.update",
            method: "PATCH",
            path_template: "/repos/{owner}/{repo}/git/refs/{ref}",
            category: "git-refs",
            required: &[(PermissionKey::Contents, PermissionLevel::Write)],
            classification: Compatibility::Simulated,
            side_effect: "Update git ref; ci-forge mutates local repository.",
        },
        7 => EndpointEntry {
            id: "git.refs.delete",
            method: "DELETE",
            path_template: "/repos/{owner}/{repo}/git/refs/{ref}",
            category: "git-refs",
            required: &[(PermissionKey::Contents, PermissionLevel::Write)],
            classification: Compatibility::Simulated,
            side_effect: "Delete git ref; ci-forge mutates local repository.",
        },
        8 => EndpointEntry {
            id: "git.tags.get",
            method: "GET",
            path_template: "/repos/{owner}/{repo}/git/tags/{sha}",
            category: "git-tags",
            required: &[(PermissionKey::Contents, PermissionLevel::Read)],
            classification: Compatibility::Simulated,
            side_effect: "Read git tag; ci-forge serves from local repository.",
        },
        9 => EndpointEntry {
            id: "git.tags.create",
            method: "POST",
            path_template: "/repos/{owner}/{repo}/git/tags",
            category: "git-tags",
            required: &[(PermissionKey::Contents, PermissionLevel::Write)],
            classification: Compatibility::Simulated,
            side_effect: "Create annotated tag; ci-forge mutates local repository.",
        },
        10 => EndpointEntry {
            id: "releases.list",
            method: "GET",
            path_template: "/repos/{owner}/{repo}/releases",
            category: "releases",
            required: &[(PermissionKey::Contents, PermissionLevel::Read)],
            classification: Compatibility::Simulated,
            side_effect: "List releases; ci-forge serves from local release store.",
        },
        11 => EndpointEntry {
            id: "releases.create",
            method: "POST",
            path_template: "/repos/{owner}/{repo}/releases",
            category: "releases",
            required: &[(PermissionKey::Contents, PermissionLevel::Write)],
            classification: Compatibility::Simulated,
            side_effect: "Create release; ci-forge persists to local release store.",
        },
        12 => EndpointEntry {
            id: "releases.get",
            method: "GET",
            path_template: "/repos/{owner}/{repo}/releases/{id}",
            category: "releases",
            required: &[(PermissionKey::Contents, PermissionLevel::Read)],
            classification: Compatibility::Simulated,
            side_effect: "Get release by id; ci-forge serves from local release store.",
        },
        13 => EndpointEntry {
            id: "releases.update",
            method: "PATCH",
            path_template: "/repos/{owner}/{repo}/releases/{id}",
            category: "releases",
            required: &[(PermissionKey::Contents, PermissionLevel::Write)],
            classification: Compatibility::Simulated,
            side_effect: "Edit release metadata; ci-forge mutates local release store.",
        },
        14 => EndpointEntry {
            id: "releases.delete",
            method: "DELETE",
            path_template: "/repos/{owner}/{repo}/releases/{id}",
            category: "releases",
            required: &[(PermissionKey::Contents, PermissionLevel::Write)],
            classification: Compatibility::Simulated,
            side_effect: "Delete release; ci-forge mutates local release store.",
        },
        15 => EndpointEntry {
            id: "releases.latest",
            method: "GET",
            path_template: "/repos/{owner}/{repo}/releases/latest",
            category: "releases",
            required: &[(PermissionKey::Contents, PermissionLevel::Read)],
            classification: Compatibility::Simulated,
            side_effect: "Get latest release; ci-forge serves from local release store.",
        },
        16 => EndpointEntry {
            id: "releases.by_tag",
            method: "GET",
            path_template: "/repos/{owner}/{repo}/releases/tags/{tag}",
            category: "releases",
            required: &[(PermissionKey::Contents, PermissionLevel::Read)],
            classification: Compatibility::Simulated,
            side_effect: "Get release by tag; ci-forge serves from local release store.",
        },
        17 => EndpointEntry {
            id: "releases.assets.list",
            method: "GET",
            path_template: "/repos/{owner}/{repo}/releases/{id}/assets",
            category: "release-assets",
            required: &[(PermissionKey::Contents, PermissionLevel::Read)],
            classification: Compatibility::Simulated,
            side_effect: "List release assets; ci-forge serves from local release store.",
        },
        18 => EndpointEntry {
            id: "releases.assets.upload",
            method: "POST",
            path_template: "/repos/{owner}/{repo}/releases/{id}/assets",
            category: "release-assets",
            required: &[(PermissionKey::Contents, PermissionLevel::Write)],
            classification: Compatibility::Simulated,
            side_effect: "Upload release asset; ci-forge persists asset to local release store.",
        },
        19 => EndpointEntry {
            id: "releases.assets.delete",
            method: "DELETE",
            path_template: "/repos/{owner}/{repo}/releases/assets/{id}",
            category: "release-assets",
            required: &[(PermissionKey::Contents, PermissionLevel::Write)],
            classification: Compatibility::Simulated,
            side_effect: "Delete release asset; ci-forge mutates local release store.",
        },
        20 => EndpointEntry {
            id: "releases.assets.get",
            method: "GET",
            path_template: "/repos/{owner}/{repo}/releases/assets/{id}",
            category: "release-assets",
            required: &[(PermissionKey::Contents, PermissionLevel::Read)],
            classification: Compatibility::Simulated,
            side_effect: "Get release asset metadata; ci-forge serves from local release store.",
        },
        21 => EndpointEntry {
            id: "issues.list",
            method: "GET",
            path_template: "/repos/{owner}/{repo}/issues",
            category: "issues",
            required: &[(PermissionKey::Issues, PermissionLevel::Read)],
            classification: Compatibility::Simulated,
            side_effect: "List issues; ci-forge serves empty/stub list offline.",
        },
        22 => EndpointEntry {
            id: "issues.create",
            method: "POST",
            path_template: "/repos/{owner}/{repo}/issues",
            category: "issues",
            required: &[(PermissionKey::Issues, PermissionLevel::Write)],
            classification: Compatibility::Simulated,
            side_effect: "Create issue; ci-forge logs deterministic stub locally.",
        },
        23 => EndpointEntry {
            id: "issues.get",
            method: "GET",
            path_template: "/repos/{owner}/{repo}/issues/{number}",
            category: "issues",
            required: &[(PermissionKey::Issues, PermissionLevel::Read)],
            classification: Compatibility::Simulated,
            side_effect: "Get issue; ci-forge serves stub offline.",
        },
        24 => EndpointEntry {
            id: "issues.update",
            method: "PATCH",
            path_template: "/repos/{owner}/{repo}/issues/{number}",
            category: "issues",
            required: &[(PermissionKey::Issues, PermissionLevel::Write)],
            classification: Compatibility::Simulated,
            side_effect: "Update issue; ci-forge logs stub mutation locally.",
        },
        25 => EndpointEntry {
            id: "issues.comments.list",
            method: "GET",
            path_template: "/repos/{owner}/{repo}/issues/{number}/comments",
            category: "issue-comments",
            required: &[(PermissionKey::Issues, PermissionLevel::Read)],
            classification: Compatibility::Simulated,
            side_effect: "List issue comments; ci-forge serves stub locally.",
        },
        26 => EndpointEntry {
            id: "issues.comments.create",
            method: "POST",
            path_template: "/repos/{owner}/{repo}/issues/{number}/comments",
            category: "issue-comments",
            required: &[(PermissionKey::Issues, PermissionLevel::Write)],
            classification: Compatibility::Simulated,
            side_effect: "Create issue comment; ci-forge logs stub mutation locally.",
        },
        27 => EndpointEntry {
            id: "issues.labels.list",
            method: "GET",
            path_template: "/repos/{owner}/{repo}/issues/{number}/labels",
            category: "issue-labels",
            required: &[(PermissionKey::Issues, PermissionLevel::Read)],
            classification: Compatibility::Simulated,
            side_effect: "List labels on issue; ci-forge serves stub locally.",
        },
        28 => EndpointEntry {
            id: "issues.labels.add",
            method: "POST",
            path_template: "/repos/{owner}/{repo}/issues/{number}/labels",
            category: "issue-labels",
            required: &[(PermissionKey::Issues, PermissionLevel::Write)],
            classification: Compatibility::Simulated,
            side_effect: "Add labels to issue; ci-forge logs stub mutation locally.",
        },
        29 => EndpointEntry {
            id: "issues.labels.remove",
            method: "DELETE",
            path_template: "/repos/{owner}/{repo}/issues/{number}/labels/{name}",
            category: "issue-labels",
            required: &[(PermissionKey::Issues, PermissionLevel::Write)],
            classification: Compatibility::Simulated,
            side_effect: "Remove label from issue; ci-forge logs stub mutation locally.",
        },
        30 => EndpointEntry {
            id: "repo.labels.list",
            method: "GET",
            path_template: "/repos/{owner}/{repo}/labels",
            category: "labels",
            required: &[(PermissionKey::Issues, PermissionLevel::Read)],
            classification: Compatibility::Simulated,
            side_effect: "List repo labels; ci-forge serves stub locally.",
        },
        31 => EndpointEntry {
            id: "pulls.list",
            method: "GET",
            path_template: "/repos/{owner}/{repo}/pulls",
            category: "pulls",
            required: &[(PermissionKey::PullRequests, PermissionLevel::Read)],
            classification: Compatibility::Simulated,
            side_effect: "List pull requests; ci-forge serves stub locally.",
        },
        32 => EndpointEntry {
            id: "pulls.create",
            method: "POST",
            path_template: "/repos/{owner}/{repo}/pulls",
            category: "pulls",
            required: &[(PermissionKey::PullRequests, PermissionLevel::Write)],
            classification: Compatibility::Simulated,
            side_effect: "Create pull request; ci-forge logs stub mutation locally.",
        },
        33 => EndpointEntry {
            id: "pulls.get",
            method: "GET",
            path_template: "/repos/{owner}/{repo}/pulls/{number}",
            category: "pulls",
            required: &[(PermissionKey::PullRequests, PermissionLevel::Read)],
            classification: Compatibility::Simulated,
            side_effect: "Get pull request; ci-forge serves stub locally.",
        },
        34 => EndpointEntry {
            id: "pulls.update",
            method: "PATCH",
            path_template: "/repos/{owner}/{repo}/pulls/{number}",
            category: "pulls",
            required: &[(PermissionKey::PullRequests, PermissionLevel::Write)],
            classification: Compatibility::Simulated,
            side_effect: "Update pull request; ci-forge logs stub mutation locally.",
        },
        35 => EndpointEntry {
            id: "pulls.reviews.list",
            method: "GET",
            path_template: "/repos/{owner}/{repo}/pulls/{number}/reviews",
            category: "pull-reviews",
            required: &[(PermissionKey::PullRequests, PermissionLevel::Read)],
            classification: Compatibility::Simulated,
            side_effect: "List PR reviews; ci-forge serves stub locally.",
        },
        36 => EndpointEntry {
            id: "pulls.reviews.create",
            method: "POST",
            path_template: "/repos/{owner}/{repo}/pulls/{number}/reviews",
            category: "pull-reviews",
            required: &[(PermissionKey::PullRequests, PermissionLevel::Write)],
            classification: Compatibility::Simulated,
            side_effect: "Create PR review; ci-forge logs stub mutation locally.",
        },
        37 => EndpointEntry {
            id: "pulls.comments.create",
            method: "POST",
            path_template: "/repos/{owner}/{repo}/pulls/{number}/comments",
            category: "pull-comments",
            required: &[(PermissionKey::PullRequests, PermissionLevel::Write)],
            classification: Compatibility::Simulated,
            side_effect: "Create PR review comment; ci-forge logs stub mutation locally.",
        },
        38 => EndpointEntry {
            id: "checks.runs.create",
            method: "POST",
            path_template: "/repos/{owner}/{repo}/check-runs",
            category: "checks",
            required: &[(PermissionKey::Checks, PermissionLevel::Write)],
            classification: Compatibility::Simulated,
            side_effect: "Create check run; ci-forge persists stub check locally.",
        },
        39 => EndpointEntry {
            id: "checks.runs.update",
            method: "PATCH",
            path_template: "/repos/{owner}/{repo}/check-runs/{id}",
            category: "checks",
            required: &[(PermissionKey::Checks, PermissionLevel::Write)],
            classification: Compatibility::Simulated,
            side_effect: "Update check run; ci-forge mutates stub check locally.",
        },
        40 => EndpointEntry {
            id: "checks.runs.get",
            method: "GET",
            path_template: "/repos/{owner}/{repo}/check-runs/{id}",
            category: "checks",
            required: &[(PermissionKey::Checks, PermissionLevel::Read)],
            classification: Compatibility::Simulated,
            side_effect: "Get check run; ci-forge serves stub check locally.",
        },
        41 => EndpointEntry {
            id: "checks.runs.list_for_commit",
            method: "GET",
            path_template: "/repos/{owner}/{repo}/commits/{sha}/check-runs",
            category: "checks",
            required: &[(PermissionKey::Checks, PermissionLevel::Read)],
            classification: Compatibility::Simulated,
            side_effect: "List check runs for commit; ci-forge serves stub list locally.",
        },
        42 => EndpointEntry {
            id: "checks.suites.list_for_commit",
            method: "GET",
            path_template: "/repos/{owner}/{repo}/commits/{sha}/check-suites",
            category: "checks",
            required: &[(PermissionKey::Checks, PermissionLevel::Read)],
            classification: Compatibility::Simulated,
            side_effect: "List check suites for commit; ci-forge serves stub list locally.",
        },
        43 => EndpointEntry {
            id: "statuses.create",
            method: "POST",
            path_template: "/repos/{owner}/{repo}/statuses/{sha}",
            category: "statuses",
            required: &[(PermissionKey::Statuses, PermissionLevel::Write)],
            classification: Compatibility::Simulated,
            side_effect: "Create commit status; ci-forge persists stub status locally.",
        },
        44 => EndpointEntry {
            id: "statuses.list_for_ref",
            method: "GET",
            path_template: "/repos/{owner}/{repo}/commits/{ref}/statuses",
            category: "statuses",
            required: &[(PermissionKey::Statuses, PermissionLevel::Read)],
            classification: Compatibility::Simulated,
            side_effect: "List statuses for ref; ci-forge serves stub list locally.",
        },
        45 => EndpointEntry {
            id: "statuses.combined_for_ref",
            method: "GET",
            path_template: "/repos/{owner}/{repo}/commits/{ref}/status",
            category: "statuses",
            required: &[(PermissionKey::Statuses, PermissionLevel::Read)],
            classification: Compatibility::Simulated,
            side_effect: "Get combined status for ref; ci-forge serves stub locally.",
        },
        46 => EndpointEntry {
            id: "actions.runs.list",
            method: "GET",
            path_template: "/repos/{owner}/{repo}/actions/runs",
            category: "actions",
            required: &[(PermissionKey::Actions, PermissionLevel::Read)],
            classification: Compatibility::Simulated,
            side_effect: "List workflow runs; ci-forge serves from local run store.",
        },
        47 => EndpointEntry {
            id: "actions.runs.get",
            method: "GET",
            path_template: "/repos/{owner}/{repo}/actions/runs/{id}",
            category: "actions",
            required: &[(PermissionKey::Actions, PermissionLevel::Read)],
            classification: Compatibility::Simulated,
            side_effect: "Get workflow run; ci-forge serves from local run store.",
        },
        48 => EndpointEntry {
            id: "actions.runs.jobs",
            method: "GET",
            path_template: "/repos/{owner}/{repo}/actions/runs/{id}/jobs",
            category: "actions",
            required: &[(PermissionKey::Actions, PermissionLevel::Read)],
            classification: Compatibility::Simulated,
            side_effect: "List jobs for workflow run; ci-forge serves from local run store.",
        },
        49 => EndpointEntry {
            id: "actions.runs.cancel",
            method: "POST",
            path_template: "/repos/{owner}/{repo}/actions/runs/{id}/cancel",
            category: "actions",
            required: &[(PermissionKey::Actions, PermissionLevel::Write)],
            classification: Compatibility::Simulated,
            side_effect: "Cancel workflow run; ci-forge mutates local run store.",
        },
        50 => EndpointEntry {
            id: "actions.artifacts.list",
            method: "GET",
            path_template: "/repos/{owner}/{repo}/actions/artifacts",
            category: "actions",
            required: &[(PermissionKey::Actions, PermissionLevel::Read)],
            classification: Compatibility::Simulated,
            side_effect: "List artifacts; ci-forge serves from local artifact store.",
        },
        51 => EndpointEntry {
            id: "actions.artifacts.get",
            method: "GET",
            path_template: "/repos/{owner}/{repo}/actions/artifacts/{id}",
            category: "actions",
            required: &[(PermissionKey::Actions, PermissionLevel::Read)],
            classification: Compatibility::Simulated,
            side_effect: "Get artifact metadata; ci-forge serves from local artifact store.",
        },
        52 => EndpointEntry {
            id: "actions.artifacts.list_for_run",
            method: "GET",
            path_template: "/repos/{owner}/{repo}/actions/runs/{id}/artifacts",
            category: "actions",
            required: &[(PermissionKey::Actions, PermissionLevel::Read)],
            classification: Compatibility::Simulated,
            side_effect: "List run artifacts; ci-forge serves from local artifact store.",
        },
        53 => EndpointEntry {
            id: "actions.caches.list",
            method: "GET",
            path_template: "/repos/{owner}/{repo}/actions/caches",
            category: "actions",
            required: &[(PermissionKey::Actions, PermissionLevel::Read)],
            classification: Compatibility::Simulated,
            side_effect: "List caches; ci-forge serves from local cache store.",
        },
        54 => EndpointEntry {
            id: "actions.workflows.list",
            method: "GET",
            path_template: "/repos/{owner}/{repo}/actions/workflows",
            category: "actions",
            required: &[(PermissionKey::Actions, PermissionLevel::Read)],
            classification: Compatibility::Simulated,
            side_effect: "List workflows; ci-forge serves from local workflow store.",
        },
        55 => EndpointEntry {
            id: "actions.workflows.dispatch",
            method: "POST",
            path_template: "/repos/{owner}/{repo}/actions/workflows/{id}/dispatches",
            category: "actions",
            required: &[(PermissionKey::Actions, PermissionLevel::Write)],
            classification: Compatibility::Simulated,
            side_effect: "Trigger workflow dispatch; ci-forge enqueues stub run locally.",
        },
        56 => EndpointEntry {
            id: "deployments.list",
            method: "GET",
            path_template: "/repos/{owner}/{repo}/deployments",
            category: "deployments",
            required: &[(PermissionKey::Deployments, PermissionLevel::Read)],
            classification: Compatibility::Simulated,
            side_effect: "List deployments; ci-forge serves stub list locally.",
        },
        57 => EndpointEntry {
            id: "deployments.create",
            method: "POST",
            path_template: "/repos/{owner}/{repo}/deployments",
            category: "deployments",
            required: &[(PermissionKey::Deployments, PermissionLevel::Write)],
            classification: Compatibility::Simulated,
            side_effect: "Create deployment; ci-forge persists stub deployment locally.",
        },
        58 => EndpointEntry {
            id: "deployments.get",
            method: "GET",
            path_template: "/repos/{owner}/{repo}/deployments/{id}",
            category: "deployments",
            required: &[(PermissionKey::Deployments, PermissionLevel::Read)],
            classification: Compatibility::Simulated,
            side_effect: "Get deployment; ci-forge serves stub deployment locally.",
        },
        59 => EndpointEntry {
            id: "deployments.statuses.create",
            method: "POST",
            path_template: "/repos/{owner}/{repo}/deployments/{id}/statuses",
            category: "deployment-statuses",
            required: &[(PermissionKey::Deployments, PermissionLevel::Write)],
            classification: Compatibility::Simulated,
            side_effect: "Create deployment status; ci-forge persists stub status locally.",
        },
        60 => EndpointEntry {
            id: "deployments.statuses.list",
            method: "GET",
            path_template: "/repos/{owner}/{repo}/deployments/{id}/statuses",
            category: "deployment-statuses",
            required: &[(PermissionKey::Deployments, PermissionLevel::Read)],
            classification: Compatibility::Simulated,
            side_effect: "List deployment statuses; ci-forge serves stub list locally.",
        },
        61 => EndpointEntry {
            id: "packages.user.list",
            method: "GET",
            path_template: "/user/packages",
            category: "packages",
            required: &[(PermissionKey::Packages, PermissionLevel::Read)],
            classification: Compatibility::Simulated,
            side_effect: "List user packages; ci-forge serves stub list locally.",
        },
        62 => EndpointEntry {
            id: "packages.org.list",
            method: "GET",
            path_template: "/orgs/{org}/packages",
            category: "packages",
            required: &[(PermissionKey::Packages, PermissionLevel::Read)],
            classification: Compatibility::Simulated,
            side_effect: "List org packages; ci-forge serves stub list locally.",
        },
        63 => EndpointEntry {
            id: "packages.user.get",
            method: "GET",
            path_template: "/user/packages/{package_type}/{name}",
            category: "packages",
            required: &[(PermissionKey::Packages, PermissionLevel::Read)],
            classification: Compatibility::Simulated,
            side_effect: "Get user package; ci-forge serves stub locally.",
        },
        64 => EndpointEntry {
            id: "packages.user.delete",
            method: "DELETE",
            path_template: "/user/packages/{package_type}/{name}",
            category: "packages",
            required: &[(PermissionKey::Packages, PermissionLevel::Write)],
            classification: Compatibility::Simulated,
            side_effect: "Delete user package; ci-forge mutates local package store.",
        },
        65 => EndpointEntry {
            id: "meta.rate_limit",
            method: "GET",
            path_template: "/rate_limit",
            category: "meta",
            required: &[],
            classification: Compatibility::Exact,
            side_effect: "Read rate limit; deterministic stub matches GitHub response shape exactly.",
        },
        66 => EndpointEntry {
            id: "meta.user",
            method: "GET",
            path_template: "/user",
            category: "meta",
            required: &[],
            classification: Compatibility::Exact,
            side_effect: "Authenticated user identity; deterministic stub.",
        },
        67 => EndpointEntry {
            id: "meta.meta",
            method: "GET",
            path_template: "/meta",
            category: "meta",
            required: &[],
            classification: Compatibility::Exact,
            side_effect: "GitHub meta info; deterministic stub.",
        },
        68 => EndpointEntry {
            id: "meta.installation",
            method: "GET",
            path_template: "/repos/{owner}/{repo}/installation",
            category: "meta",
            required: &[],
            classification: Compatibility::Exact,
            side_effect: "App installation metadata; deterministic stub.",
        },        _ => EndpointEntry {
            id: "",
            method: "",
            path_template: "",
            category: "",
            required: &[],
            classification: Compatibility::Unsupported,
            side_effect: "",
        },
    }
}

/// All catalog entries, in matching order.
pub fn catalog() -> (v: Vec<EndpointEntry>)
    ensures
        v@.len() == CATALOG_LEN,
        forall|i: int| 0 <= i < CATALOG_LEN ==> (#[trigger] v@[i]).deep_view() == catalog_entry(i),
{
    let mut v: Vec<EndpointEntry> = Vec::new();
    let mut i: usize = 0;
    while i < CATALOG_LEN
        invariant
            i <= CATALOG_LEN,
            v@.len() == i,
            forall|j: int| 0 <= j < i ==> (#[trigger] v@[j]).deep_view() == catalog_entry(j),
        decreases CATALOG_LEN - i,
    {
        v.push(catalog_entry_at(i));
        i += 1;
    }
    v
}

/// The required permissions of an entry, as records.
pub open spec fn required_of(r: Seq<(PermissionKey, PermissionLevel)>) -> Seq<RequiredPermission> {
    Seq::new(r.len(), |i: int| RequiredPermission { key: r[i].0, level: r[i].1 })
}

/// The catalog match that describes an entry.
pub open spec fn match_of(e: EndpointView) -> CatalogMatchView {
    CatalogMatchView {
        endpoint_id: e.id,
        method: e.method,
        path_template: e.path_template,
        category: e.category,
        required_permissions: required_of(e.required),
        classification: e.classification,
        side_effect: e.side_effect,
    }
}

impl EndpointEntry {
    pub fn to_match(&self) -> (m: CatalogMatch)
        ensures
            m.deep_view() == match_of(self.deep_view()),
    {
        let mut req: Vec<RequiredPermission> = Vec::new();
        let mut i: usize = 0;
        while i < self.required.len()
            invariant
                i <= self.required@.len(),
                req@ == required_of(self.required@).take(i as int),
            decreases self.required.len() - i,
        {
            let (key, level) = self.required[i];
            req.push(RequiredPermission { key, level });
            assert(required_of(self.required@).take(i + 1) =~= required_of(self.required@).take(
                i as int,
            ).push(RequiredPermission { key, level }));
            i += 1;
        }
        assert(required_of(self.required@).take(i as int) =~= required_of(self.required@));
        CatalogMatch {
            endpoint_id: text::own(self.id),
            method: text::own(self.method),
            path_template: text::own(self.path_template),
            category: text::own(self.category),
            required_permissions: req,
            classification: self.classification,
            side_effect: text::own(self.side_effect),
        }
    }
}

/// `path` without its query string.
pub open spec fn strip_query_seq(path: Seq<char>) -> Seq<char> {
    match find_char(path, '?') {
        Some(i) => path.take(i),
        None => path,
    }
}

/// `value` without leading and trailing slashes.
pub open spec fn trim_slashes_seq(value: Seq<char>) -> Seq<char> {
    strip_trailing(strip_leading(value, '/'), '/')
}

/// A `{name}` segment of a path template.
pub open spec fn is_placeholder_seq(segment: Seq<char>) -> bool {
    segment.len() >= 2 && segment[0] == '{' && segment.last() == '}'
}

/// A template segment accepts a path segment: a placeholder accepts any
/// non-empty segment, a literal accepts itself up to ASCII case.
pub open spec fn segment_matches(t: Seq<char>, p: Seq<char>) -> bool {
    if is_placeholder_seq(t) {
        p.len() > 0
    } else {
        eq_ignore_case_seq(t, p)
    }
}

/// `path` matches `template` segment by segment.
pub open spec fn path_matches_seq(template: Seq<char>, path: Seq<char>) -> bool {
    let ts = split_seq(trim_slashes_seq(template), '/');
    let ps = split_seq(trim_slashes_seq(path), '/');
    &&& ts.len() == ps.len()
    &&& forall|i: int| 0 <= i < ts.len() ==> segment_matches(#[trigger] ts[i], ps[i])
}

/// The path of a call with its query string stripped.
pub fn strip_query(path: &str) -> (r: &str)
    ensures
        r@ == strip_query_seq(path@),
{
    proof {
        text::lemma_find_char_spec(path@, '?');
    }
    match text::find(path, '?') {
        Some(index) => {
            let r = path.substring_char(0, index);
            assert(path@.subrange(0, index as int) =~= path@.take(index as int));
            r
        },
        None => path,
    }
}

fn trim_slashes(value: &str) -> (r: String)
    ensures
        r@ == trim_slashes_seq(value@),
{
    text::trim_char(value, '/')
}

fn is_placeholder(segment: &str) -> (r: bool)
    ensures
        r == is_placeholder_seq(segment@),
{
    let v = text::chars_of(segment);
    v.len() >= 2 && v[0] == '{' && v[v.len() - 1] == '}'
}

pub fn path_matches(template: &str, path: &str) -> (r: bool)
    ensures
        r == path_matches_seq(template@, path@),
{
    let t = trim_slashes(template);
    let p = trim_slashes(path);
    let template_segs = text::split(t.as_str(), '/');
    let path_segs = text::split(p.as_str(), '/');
    let ghost ts = template_segs.deep_view();
    let ghost ps = path_segs.deep_view();
    if template_segs.len() != path_segs.len() {
        return false;
    }
    let mut i: usize = 0;
    while i < template_segs.len()
        invariant
            ts == template_segs.deep_view(),
            ps == path_segs.deep_view(),
            ts == split_seq(trim_slashes_seq(template@), '/'),
            ps == split_seq(trim_slashes_seq(path@), '/'),
            ts.len() == ps.len(),
            i <= ts.len(),
            forall|j: int| 0 <= j < i ==> segment_matches(#[trigger] ts[j], ps[j]),
        decreases template_segs.len() - i,
    {
        let ts_i = template_segs[i].as_str();
        let ps_i = path_segs[i].as_str();
        assert(ts_i@ == ts[i as int]);
        assert(ps_i@ == ps[i as int]);
        let t_empty = text::chars_of(ts_i).len() == 0;
        let p_empty = text::chars_of(ps_i).len() == 0;
        if t_empty && p_empty {
            assert(eq_ignore_case_seq(ts[i as int], ps[i as int]));
            i += 1;
            continue;
        }
        if is_placeholder(ts_i) {
            if p_empty {
                assert(!segment_matches(ts[i as int], ps[i as int]));
                return false;
            }
            i += 1;
            continue;
        }
        if !text::eq_ignore_ascii_case(ts_i, ps_i) {
            assert(!segment_matches(ts[i as int], ps[i as int]));
            return false;
        }
        i += 1;
    }
    true
}

/// The path names the `/graphql` endpoint.
pub open spec fn is_graphql_seq(path: Seq<char>) -> bool {
    eq_ignore_case_seq(trim_slashes_seq(strip_query_seq(path)), "graphql"@)
}

pub fn is_graphql_path(path: &str) -> (r: bool)
    ensures
        r == is_graphql_seq(path@),
{
    let stripped = strip_query(path);
    let trimmed = trim_slashes(stripped);
    text::eq_ignore_ascii_case(trimmed.as_str(), "graphql")
}

/// Catalog entry `e` serves `method` (already uppercased) on `path` (query stripped).
pub open spec fn entry_matches(e: EndpointView, method: Seq<char>, path: Seq<char>) -> bool {
    eq_ignore_case_seq(e.method, method) && path_matches_seq(e.path_template, path)
}

/// The first catalog index at or after `i` whose entry serves the call.
pub open spec fn first_match_from(method: Seq<char>, path: Seq<char>, i: int) -> Option<int>
    decreases CATALOG_LEN - i,
{
    if i < 0 || i >= CATALOG_LEN {
        None
    } else if entry_matches(catalog_entry(i), method, path) {
        Some(i)
    } else {
        first_match_from(method, path, i + 1)
    }
}

/// The match for an uppercased method and a path, the first entry in catalog order.
pub open spec fn lookup_upper_spec(method: Seq<char>, path: Seq<char>) -> Option<CatalogMatchView> {
    match first_match_from(method, strip_query_seq(path), 0) {
        Some(i) => Some(match_of(catalog_entry(i))),
        None => None,
    }
}

/// The match for a call as given: the method is trimmed and uppercased first.
pub open spec fn lookup_spec(method: Seq<char>, path: Seq<char>) -> Option<CatalogMatchView> {
    lookup_upper_spec(uppercase_of(trim_seq(method)), path)
}

/// Looks up a call whose method has already been normalized to uppercase.
pub fn lookup_upper(normalized_method: &str, path: &str) -> (r: Option<CatalogMatch>)
    ensures
        r.deep_view() == lookup_upper_spec(normalized_method@, path@),
{
    let stripped = strip_query(path);
    let mut i: usize = 0;
    while i < CATALOG_LEN
        invariant
            i <= CATALOG_LEN,
            stripped@ == strip_query_seq(path@),
            first_match_from(normalized_method@, stripped@, 0) == first_match_from(
                normalized_method@,
                stripped@,
                i as int,
            ),
        decreases CATALOG_LEN - i,
    {
        let entry = catalog_entry_at(i);
        if text::eq_ignore_ascii_case(entry.method, normalized_method) && path_matches(
            entry.path_template,
            stripped,
        ) {
            return Some(entry.to_match());
        }
        i += 1;
    }
    None
}

/// Looks up the catalog entry for a call. An ASCII method is uppercased
/// letter by letter.
pub fn lookup(method: &str, path: &str) -> (r: Option<CatalogMatch>)
    ensures
        r.deep_view() == lookup_spec(method@, path@),
        is_ascii_seq(trim_seq(method@)) ==> r.deep_view() == lookup_upper_spec(
            ascii_upper_seq(trim_seq(method@)),
            path@,
        ),
{
    let trimmed = text::trim(method);
    let normalized_method = text::to_uppercase(trimmed.as_str());
    lookup_upper(normalized_method.as_str(), path)
}

/// The search from index `k` finds the first entry at or after `k` that
/// serves the call, and finds none exactly when no such entry exists.
proof fn lemma_first_match_from(method: Seq<char>, path: Seq<char>, k: int)
    requires
        0 <= k,
    ensures
        first_match_from(method, path, k) matches Some(i) ==> k <= i < CATALOG_LEN && entry_matches(
            catalog_entry(i),
            method,
            path,
        ) && forall|j: int| k <= j < i ==> !entry_matches(#[trigger] catalog_entry(j), method, path),
        first_match_from(method, path, k) is None <==> forall|j: int|
            k <= j < CATALOG_LEN ==> !entry_matches(#[trigger] catalog_entry(j), method, path),
    decreases CATALOG_LEN - k,
{
    if k < CATALOG_LEN {
        lemma_first_match_from(method, path, k + 1);
    }
}

/// A lookup gives the match of the first catalog entry, in catalog order, whose
/// method equals the call's (ignoring ASCII case) and whose path template fits
/// the call's path without its query string; it gives nothing exactly when no
/// entry does.
pub proof fn law_lookup_first_match(method: Seq<char>, path: Seq<char>)
    ensures
        lookup_upper_spec(method, path) matches Some(m) ==> exists|i: int|
            0 <= i < CATALOG_LEN && m == match_of(catalog_entry(i)) && entry_matches(
                #[trigger] catalog_entry(i),
                method,
                strip_query_seq(path),
            ) && forall|j: int|
                0 <= j < i ==> !entry_matches(
                    #[trigger] catalog_entry(j),
                    method,
                    strip_query_seq(path),
                ),
        lookup_upper_spec(method, path) is None <==> forall|j: int|
            0 <= j < CATALOG_LEN ==> !entry_matches(
                #[trigger] catalog_entry(j),
                method,
                strip_query_seq(path),
            ),
{
    lemma_first_match_from(method, strip_query_seq(path), 0);
}

/// No catalog entry is unsupported, and an entry is exact exactly when it
/// needs no permission.
pub proof fn law_catalog_classification(i: int)
    requires
        0 <= i < CATALOG_LEN,
    ensures
        catalog_entry(i).classification != Compatibility::Unsupported,
        (catalog_entry(i).classification == Compatibility::Exact) == (catalog_entry(i).required.len()
            == 0),
{
}

/// Whether an HTTP method changes state on the server.
pub open spec fn mutating_method(method: Seq<char>) -> bool {
    method == "POST"@ || method == "PUT"@ || method == "PATCH"@ || method == "DELETE"@
}

/// Every catalog entry is a `GET` or a state-changing method. A state-changing
/// entry requires write access: at least one permission, each at `write`. A
/// `GET` entry requires only read access.
pub proof fn law_catalog_write_for_mutations(i: int)
    requires
        0 <= i < CATALOG_LEN,
    ensures
        catalog_entry(i).method == "GET"@ || mutating_method(catalog_entry(i).method),
        mutating_method(catalog_entry(i).method) ==> catalog_entry(i).required.len() >= 1
            && forall|j: int|
            0 <= j < catalog_entry(i).required.len() ==> (#[trigger] catalog_entry(i).required[j]).1
                == PermissionLevel::Write,
        catalog_entry(i).method == "GET"@ ==> forall|j: int|
            0 <= j < catalog_entry(i).required.len() ==> (#[trigger] catalog_entry(i).required[j]).1
                == PermissionLevel::Read,
{
    reveal_strlit("GET");
    reveal_strlit("POST");
    reveal_strlit("PUT");
    reveal_strlit("PATCH");
    reveal_strlit("DELETE");
    assert("GET"@ != "POST"@ && "GET"@ != "PUT"@ && "GET"@ != "PATCH"@ && "GET"@ != "DELETE"@) by {
        assert("GET"@[0] != "POST"@[0] && "GET"@[0] != "PUT"@[0] && "GET"@[0] != "PATCH"@[0]);
        assert("GET"@.len() != "DELETE"@.len());
    }
}

/// Stripping the query string twice strips nothing more.
pub proof fn law_strip_query_idempotent(path: Seq<char>)
    ensures
        strip_query_seq(strip_query_seq(path)) == strip_query_seq(path),
{
    text::lemma_find_char_spec(path, '?');
    let s = strip_query_seq(path);
    text::lemma_find_char_spec(s, '?');
    if find_char(s, '?') is Some {
        let j = find_char(s, '?')->0;
        match find_char(path, '?') {
            Some(i) => {
                assert(s[j] == path[j]);
            },
            None => {},
        }
    }
}

/// A lookup ignores the query string of the path.
pub proof fn law_lookup_ignores_query(method: Seq<char>, path: Seq<char>)
    ensures
        lookup_spec(method, strip_query_seq(path)) == lookup_spec(method, path),
{
    law_strip_query_idempotent(path);
}

} // verus!
