//! The data model of receipts, checks, permissions and classifications.

use vstd::prelude::*;

use crate::text;
use crate::text::{key_less, lemma_key_less_trans, lemma_key_order, trim_seq};
use crate::value::{JsonValue, JsonView, object_view};

verus! {

pub type SchemaVersion = u32;

pub const SCHEMA_VERSION: u32 = 1;

pub const GH_LOG_SCHEMA_VERSION: u32 = 1;

#[derive(Clone, Copy, Debug, PartialEq, Eq, Structural)]
pub enum OutputFormat {
    Text,
    Json,
    Markdown,
}

#[derive(Debug)]
pub struct ToolInfo {
    pub name: String,
    pub version: String,
}

#[verifier::ext_equal]
pub struct ToolInfoView {
    pub name: Seq<char>,
    pub version: Seq<char>,
}

impl DeepView for ToolInfo {
    type V = ToolInfoView;

    open spec fn deep_view(&self) -> ToolInfoView {
        ToolInfoView { name: self.name@, version: self.version@ }
    }
}

#[derive(Clone, Copy, Debug, PartialEq, Eq, Structural)]
pub enum CheckStatus {
    Pass,
    Warn,
    Fail,
    Skip,
}

impl DeepView for CheckStatus {
    type V = CheckStatus;

    open spec fn deep_view(&self) -> CheckStatus {
        *self
    }
}

#[derive(Debug)]
pub struct Check {
    pub id: String,
    pub status: CheckStatus,
    pub message: String,
    pub location: Option<String>,
}

#[verifier::ext_equal]
pub struct CheckView {
    pub id: Seq<char>,
    pub status: CheckStatus,
    pub message: Seq<char>,
    pub location: Option<Seq<char>>,
}

impl DeepView for Check {
    type V = CheckView;

    open spec fn deep_view(&self) -> CheckView {
        CheckView {
            id: self.id@,
            status: self.status,
            message: self.message@,
            location: self.location.deep_view(),
        }
    }
}

/// The view of a check with the given fields and no location.
pub open spec fn check_of(id: Seq<char>, status: CheckStatus, message: Seq<char>) -> CheckView {
    CheckView { id, status, message, location: None }
}

/// The view of a check with the given fields and a location.
pub open spec fn check_at(
    id: Seq<char>,
    status: CheckStatus,
    message: Seq<char>,
    location: Seq<char>,
) -> CheckView {
    CheckView { id, status, message, location: Some(location) }
}

impl Check {
    fn with_status(id: String, status: CheckStatus, message: String) -> (c: Self)
        ensures
            c.deep_view() == check_of(id@, status, message@),
    {
        Check { id, status, message, location: None }
    }

    pub fn pass(id: String, message: String) -> (c: Self)
        ensures
            c.deep_view() == check_of(id@, CheckStatus::Pass, message@),
    {
        Self::with_status(id, CheckStatus::Pass, message)
    }

    pub fn warn(id: String, message: String) -> (c: Self)
        ensures
            c.deep_view() == check_of(id@, CheckStatus::Warn, message@),
    {
        Self::with_status(id, CheckStatus::Warn, message)
    }

    pub fn fail(id: String, message: String) -> (c: Self)
        ensures
            c.deep_view() == check_of(id@, CheckStatus::Fail, message@),
    {
        Self::with_status(id, CheckStatus::Fail, message)
    }

    pub fn skip(id: String, message: String) -> (c: Self)
        ensures
            c.deep_view() == check_of(id@, CheckStatus::Skip, message@),
    {
        Self::with_status(id, CheckStatus::Skip, message)
    }

    /// The same check, located at `location`.
    pub fn at(self, location: String) -> (c: Self)
        ensures
            c.deep_view() == (CheckView { location: Some(location@), ..self.deep_view() }),
    {
        let mut c = self;
        c.location = Some(location);
        c
    }
}

/// The number of checks in `checks` with status `status`.
pub open spec fn count_status(checks: Seq<CheckView>, status: CheckStatus) -> nat
    decreases checks.len(),
{
    if checks.len() == 0 {
        0
    } else {
        count_status(checks.drop_last(), status) + if checks.last().status == status {
            1nat
        } else {
            0nat
        }
    }
}

pub proof fn lemma_count_le_len(checks: Seq<CheckView>, status: CheckStatus)
    ensures
        count_status(checks, status) <= checks.len(),
    decreases checks.len(),
{
    if checks.len() > 0 {
        lemma_count_le_len(checks.drop_last(), status);
    }
}

/// Counting distributes over concatenation.
pub proof fn lemma_count_concat(a: Seq<CheckView>, b: Seq<CheckView>, status: CheckStatus)
    ensures
        count_status(a + b, status) == count_status(a, status) + count_status(b, status),
    decreases b.len(),
{
    if b.len() == 0 {
        assert(a + b =~= a);
    } else {
        lemma_count_concat(a, b.drop_last(), status);
        assert((a + b).drop_last() =~= a + b.drop_last());
    }
}

/// The four status counts of `checks` add up to its length.
pub proof fn lemma_count_total(checks: Seq<CheckView>)
    ensures
        count_status(checks, CheckStatus::Pass) + count_status(checks, CheckStatus::Warn)
            + count_status(checks, CheckStatus::Fail) + count_status(checks, CheckStatus::Skip)
            == checks.len(),
    decreases checks.len(),
{
    if checks.len() > 0 {
        lemma_count_total(checks.drop_last());
    }
}

/// The summary whose counts are those of `checks`.
pub open spec fn summary_of(checks: Seq<CheckView>) -> ReceiptSummary {
    ReceiptSummary {
        passed: count_status(checks, CheckStatus::Pass) as usize,
        warnings: count_status(checks, CheckStatus::Warn) as usize,
        failed: count_status(checks, CheckStatus::Fail) as usize,
        skipped: count_status(checks, CheckStatus::Skip) as usize,
    }
}

/// A summary of checks that fit in `usize` is the summary of those checks.
pub proof fn lemma_summary_of(s: ReceiptSummary, checks: Seq<CheckView>)
    requires
        summarizes(s, checks),
    ensures
        s == summary_of(checks),
{
}

#[derive(Clone, Copy, Debug)]
pub struct ReceiptSummary {
    pub passed: usize,
    pub warnings: usize,
    pub failed: usize,
    pub skipped: usize,
}

impl DeepView for ReceiptSummary {
    type V = ReceiptSummary;

    open spec fn deep_view(&self) -> ReceiptSummary {
        *self
    }
}

/// `s` holds exactly the status counts of `checks`.
pub open spec fn summarizes(s: ReceiptSummary, checks: Seq<CheckView>) -> bool {
    &&& s.passed == count_status(checks, CheckStatus::Pass)
    &&& s.warnings == count_status(checks, CheckStatus::Warn)
    &&& s.failed == count_status(checks, CheckStatus::Fail)
    &&& s.skipped == count_status(checks, CheckStatus::Skip)
}

/// The sum of two summaries, field by field.
pub open spec fn summary_sum(a: ReceiptSummary, b: ReceiptSummary) -> (int, int, int, int) {
    (a.passed + b.passed, a.warnings + b.warnings, a.failed + b.failed, a.skipped + b.skipped)
}

/// The fields of `s`, as integers.
pub open spec fn summary_fields(s: ReceiptSummary) -> (int, int, int, int) {
    (s.passed as int, s.warnings as int, s.failed as int, s.skipped as int)
}

/// Adding `a` and `b` fits in `usize` in every field.
pub open spec fn summary_add_fits(a: ReceiptSummary, b: ReceiptSummary) -> bool {
    &&& a.passed + b.passed <= usize::MAX
    &&& a.warnings + b.warnings <= usize::MAX
    &&& a.failed + b.failed <= usize::MAX
    &&& a.skipped + b.skipped <= usize::MAX
}

/// The summary that counts `checks` on top of `base`, as integers.
pub open spec fn summary_plus_checks(base: ReceiptSummary, checks: Seq<CheckView>) -> (
    int,
    int,
    int,
    int,
) {
    (
        base.passed + count_status(checks, CheckStatus::Pass),
        base.warnings + count_status(checks, CheckStatus::Warn),
        base.failed + count_status(checks, CheckStatus::Fail),
        base.skipped + count_status(checks, CheckStatus::Skip),
    )
}

impl Default for ReceiptSummary {
    fn default() -> (s: Self)
        ensures
            s.passed == 0 && s.warnings == 0 && s.failed == 0 && s.skipped == 0,
    {
        ReceiptSummary { passed: 0, warnings: 0, failed: 0, skipped: 0 }
    }
}

impl ReceiptSummary {
    /// Counts the checks of each status.
    pub fn from_checks(checks: &[Check]) -> (s: Self)
        ensures
            summarizes(s, checks.deep_view()),
    {
        let mut s = ReceiptSummary { passed: 0, warnings: 0, failed: 0, skipped: 0 };
        let mut i: usize = 0;
        while i < checks.len()
            invariant
                i <= checks@.len(),
                summarizes(s, checks.deep_view().take(i as int)),
            decreases checks.len() - i,
        {
            let ghost cv = checks.deep_view();
            proof {
                assert(cv.take(i + 1).drop_last() =~= cv.take(i as int));
                lemma_count_le_len(cv.take(i as int), CheckStatus::Pass);
                lemma_count_le_len(cv.take(i as int), CheckStatus::Warn);
                lemma_count_le_len(cv.take(i as int), CheckStatus::Fail);
                lemma_count_le_len(cv.take(i as int), CheckStatus::Skip);
            }
            match checks[i].status {
                CheckStatus::Pass => s.passed = s.passed + 1,
                CheckStatus::Warn => s.warnings = s.warnings + 1,
                CheckStatus::Fail => s.failed = s.failed + 1,
                CheckStatus::Skip => s.skipped = s.skipped + 1,
            }
            i += 1;
        }
        assert(checks.deep_view().take(checks@.len() as int) =~= checks.deep_view());
        s
    }

    /// Adds `other` to this summary field by field.
    pub fn add(&mut self, other: &Self)
        requires
            summary_add_fits(*old(self), *other),
        ensures
            summary_fields(*final(self)) == summary_sum(*old(self), *other),
    {
        self.passed = self.passed + other.passed;
        self.warnings = self.warnings + other.warnings;
        self.failed = self.failed + other.failed;
        self.skipped = self.skipped + other.skipped;
    }

    /// Adds the status counts of `checks` to this summary.
    pub fn merge_checks(&mut self, checks: &[Check])
        requires
            summary_plus_checks(*old(self), checks.deep_view()).0 <= usize::MAX,
            summary_plus_checks(*old(self), checks.deep_view()).1 <= usize::MAX,
            summary_plus_checks(*old(self), checks.deep_view()).2 <= usize::MAX,
            summary_plus_checks(*old(self), checks.deep_view()).3 <= usize::MAX,
        ensures
            summary_fields(*final(self)) == summary_plus_checks(*old(self), checks.deep_view()),
    {
        let other = Self::from_checks(checks);
        self.add(&other);
    }
}

/// The statuses of `checks`, in order.
pub open spec fn statuses_of(checks: Seq<CheckView>) -> Seq<CheckStatus> {
    Seq::new(checks.len(), |i: int| checks[i].status)
}

/// The statuses of two runs of checks are those of each, one after the other.
pub proof fn lemma_statuses_concat(a: Seq<CheckView>, b: Seq<CheckView>)
    ensures
        statuses_of(a + b) == statuses_of(a) + statuses_of(b),
{
    assert(statuses_of(a + b) =~= statuses_of(a) + statuses_of(b));
}

/// Appends the statuses of `checks` to `statuses`.
pub(crate) fn push_statuses(statuses: &mut Vec<CheckStatus>, checks: &[Check])
    ensures
        final(statuses)@ == old(statuses)@ + statuses_of(checks.deep_view()),
{
    let ghost start = statuses@;
    let mut i: usize = 0;
    while i < checks.len()
        invariant
            i <= checks@.len(),
            statuses@ == start + statuses_of(checks.deep_view().take(i as int)),
        decreases checks.len() - i,
    {
        statuses.push(checks[i].status);
        proof {
            let cv = checks.deep_view();
            assert(statuses_of(cv.take(i + 1)) =~= statuses_of(cv.take(i as int)).push(cv[i as int].status));
        }
        i += 1;
    }
    assert(checks.deep_view().take(checks@.len() as int) =~= checks.deep_view());
}

/// The summary of the checks whose statuses `statuses` holds. Every status
/// counted is an element of `statuses`, so no count can exceed `usize`.
pub(crate) fn summary_of_statuses(statuses: &Vec<CheckStatus>, Ghost(checks): Ghost<Seq<CheckView>>) -> (s: ReceiptSummary)
    requires
        statuses@ == statuses_of(checks),
    ensures
        summarizes(s, checks),
{
    let mut s = ReceiptSummary { passed: 0, warnings: 0, failed: 0, skipped: 0 };
    let mut i: usize = 0;
    while i < statuses.len()
        invariant
            statuses@ == statuses_of(checks),
            i <= checks.len(),
            summarizes(s, checks.take(i as int)),
        decreases statuses.len() - i,
    {
        proof {
            assert(checks.take(i + 1).drop_last() =~= checks.take(i as int));
            assert(statuses@[i as int] == checks[i as int].status);
            lemma_count_le_len(checks.take(i as int), CheckStatus::Pass);
            lemma_count_le_len(checks.take(i as int), CheckStatus::Warn);
            lemma_count_le_len(checks.take(i as int), CheckStatus::Fail);
            lemma_count_le_len(checks.take(i as int), CheckStatus::Skip);
        }
        match statuses[i] {
            CheckStatus::Pass => s.passed = s.passed + 1,
            CheckStatus::Warn => s.warnings = s.warnings + 1,
            CheckStatus::Fail => s.failed = s.failed + 1,
            CheckStatus::Skip => s.skipped = s.skipped + 1,
        }
        i += 1;
    }
    assert(checks.take(checks.len() as int) =~= checks);
    s
}

#[derive(Clone, Copy, Debug, PartialEq, Eq, Hash, Structural)]
pub enum PermissionKey {
    Actions,
    Attestations,
    Checks,
    Contents,
    Deployments,
    Discussions,
    IdToken,
    Issues,
    Models,
    Packages,
    Pages,
    PullRequests,
    RepositoryProjects,
    SecurityEvents,
    Statuses,
}

impl DeepView for PermissionKey {
    type V = PermissionKey;

    open spec fn deep_view(&self) -> PermissionKey {
        *self
    }
}

/// The workflow-syntax name of a permission key.
pub open spec fn key_name(k: PermissionKey) -> Seq<char> {
    match k {
        PermissionKey::Actions => "actions"@,
        PermissionKey::Attestations => "attestations"@,
        PermissionKey::Checks => "checks"@,
        PermissionKey::Contents => "contents"@,
        PermissionKey::Deployments => "deployments"@,
        PermissionKey::Discussions => "discussions"@,
        PermissionKey::IdToken => "id-token"@,
        PermissionKey::Issues => "issues"@,
        PermissionKey::Models => "models"@,
        PermissionKey::Packages => "packages"@,
        PermissionKey::Pages => "pages"@,
        PermissionKey::PullRequests => "pull-requests"@,
        PermissionKey::RepositoryProjects => "repository-projects"@,
        PermissionKey::SecurityEvents => "security-events"@,
        PermissionKey::Statuses => "statuses"@,
    }
}

/// The key whose name is `s` once trimmed.
pub open spec fn parse_key_seq(s: Seq<char>) -> Option<PermissionKey> {
    let t = trim_seq(s);
    if t == "actions"@ {
        Some(PermissionKey::Actions)
    } else if t == "attestations"@ {
        Some(PermissionKey::Attestations)
    } else if t == "checks"@ {
        Some(PermissionKey::Checks)
    } else if t == "contents"@ {
        Some(PermissionKey::Contents)
    } else if t == "deployments"@ {
        Some(PermissionKey::Deployments)
    } else if t == "discussions"@ {
        Some(PermissionKey::Discussions)
    } else if t == "id-token"@ {
        Some(PermissionKey::IdToken)
    } else if t == "issues"@ {
        Some(PermissionKey::Issues)
    } else if t == "models"@ {
        Some(PermissionKey::Models)
    } else if t == "packages"@ {
        Some(PermissionKey::Packages)
    } else if t == "pages"@ {
        Some(PermissionKey::Pages)
    } else if t == "pull-requests"@ {
        Some(PermissionKey::PullRequests)
    } else if t == "repository-projects"@ {
        Some(PermissionKey::RepositoryProjects)
    } else if t == "security-events"@ {
        Some(PermissionKey::SecurityEvents)
    } else if t == "statuses"@ {
        Some(PermissionKey::Statuses)
    } else {
        None
    }
}

/// Every permission key, in declaration order.
pub open spec fn all_keys() -> Seq<PermissionKey> {
    seq![
        PermissionKey::Actions,
        PermissionKey::Attestations,
        PermissionKey::Checks,
        PermissionKey::Contents,
        PermissionKey::Deployments,
        PermissionKey::Discussions,
        PermissionKey::IdToken,
        PermissionKey::Issues,
        PermissionKey::Models,
        PermissionKey::Packages,
        PermissionKey::Pages,
        PermissionKey::PullRequests,
        PermissionKey::RepositoryProjects,
        PermissionKey::SecurityEvents,
        PermissionKey::Statuses,
    ]
}

impl PermissionKey {
    pub fn as_str(&self) -> (r: &'static str)
        ensures
            r@ == key_name(*self),
    {
        match self {
            PermissionKey::Actions => "actions",
            PermissionKey::Attestations => "attestations",
            PermissionKey::Checks => "checks",
            PermissionKey::Contents => "contents",
            PermissionKey::Deployments => "deployments",
            PermissionKey::Discussions => "discussions",
            PermissionKey::IdToken => "id-token",
            PermissionKey::Issues => "issues",
            PermissionKey::Models => "models",
            PermissionKey::Packages => "packages",
            PermissionKey::Pages => "pages",
            PermissionKey::PullRequests => "pull-requests",
            PermissionKey::RepositoryProjects => "repository-projects",
            PermissionKey::SecurityEvents => "security-events",
            PermissionKey::Statuses => "statuses",
        }
    }

    pub fn parse(value: &str) -> (r: Option<Self>)
        ensures
            r == parse_key_seq(value@),
    {
        let t = text::trim(value);
        let t = t.as_str();
        if text::str_eq(t, "actions") {
            Some(PermissionKey::Actions)
        } else if text::str_eq(t, "attestations") {
            Some(PermissionKey::Attestations)
        } else if text::str_eq(t, "checks") {
            Some(PermissionKey::Checks)
        } else if text::str_eq(t, "contents") {
            Some(PermissionKey::Contents)
        } else if text::str_eq(t, "deployments") {
            Some(PermissionKey::Deployments)
        } else if text::str_eq(t, "discussions") {
            Some(PermissionKey::Discussions)
        } else if text::str_eq(t, "id-token") {
            Some(PermissionKey::IdToken)
        } else if text::str_eq(t, "issues") {
            Some(PermissionKey::Issues)
        } else if text::str_eq(t, "models") {
            Some(PermissionKey::Models)
        } else if text::str_eq(t, "packages") {
            Some(PermissionKey::Packages)
        } else if text::str_eq(t, "pages") {
            Some(PermissionKey::Pages)
        } else if text::str_eq(t, "pull-requests") {
            Some(PermissionKey::PullRequests)
        } else if text::str_eq(t, "repository-projects") {
            Some(PermissionKey::RepositoryProjects)
        } else if text::str_eq(t, "security-events") {
            Some(PermissionKey::SecurityEvents)
        } else if text::str_eq(t, "statuses") {
            Some(PermissionKey::Statuses)
        } else {
            None
        }
    }

    pub fn all() -> (r: &'static [PermissionKey])
        ensures
            r@ == all_keys(),
    {
        let r: &'static [PermissionKey] = &[
            PermissionKey::Actions,
            PermissionKey::Attestations,
            PermissionKey::Checks,
            PermissionKey::Contents,
            PermissionKey::Deployments,
            PermissionKey::Discussions,
            PermissionKey::IdToken,
            PermissionKey::Issues,
            PermissionKey::Models,
            PermissionKey::Packages,
            PermissionKey::Pages,
            PermissionKey::PullRequests,
            PermissionKey::RepositoryProjects,
            PermissionKey::SecurityEvents,
            PermissionKey::Statuses,
        ];
        assert(r@ =~= all_keys());
        r
    }
}

#[derive(Clone, Copy, Debug, PartialEq, Eq, PartialOrd, Ord, Structural)]
pub enum PermissionLevel {
    NoAccess,
    Read,
    Write,
}

impl DeepView for PermissionLevel {
    type V = PermissionLevel;

    open spec fn deep_view(&self) -> PermissionLevel {
        *self
    }
}

proof fn lemma_key_names_differ(k: PermissionKey, other: PermissionKey)
    ensures
        k != other ==> key_name(k) != key_name(other),
{
    reveal_strlit("actions");
    reveal_strlit("attestations");
    reveal_strlit("checks");
    reveal_strlit("contents");
    reveal_strlit("deployments");
    reveal_strlit("discussions");
    reveal_strlit("id-token");
    reveal_strlit("issues");
    reveal_strlit("models");
    reveal_strlit("packages");
    reveal_strlit("pages");
    reveal_strlit("pull-requests");
    reveal_strlit("repository-projects");
    reveal_strlit("security-events");
    reveal_strlit("statuses");
    let n = key_name(k);
    let m = key_name(other);
    if k != other && n.len() == m.len() {
        assert(exists|i: int| 0 <= i < n.len() && n[i] != m[i]) by {
            if n[0] != m[0] {
                assert(n[0] != m[0]);
            } else if n[1] != m[1] {
                assert(n[1] != m[1]);
            } else if n[2] != m[2] {
                assert(n[2] != m[2]);
            } else {
                assert(n[3] != m[3]);
            }
        }
    }
}

/// Every permission key's name reads back as that key, and no two keys share a name.
pub proof fn law_key_names(k: PermissionKey, other: PermissionKey)
    ensures
        parse_key_seq(key_name(k)) == Some(k),
        k != other ==> key_name(k) != key_name(other),
{
    lemma_key_names_differ(k, other);
    lemma_key_names_differ(k, PermissionKey::Actions);
    lemma_key_names_differ(k, PermissionKey::Attestations);
    lemma_key_names_differ(k, PermissionKey::Checks);
    lemma_key_names_differ(k, PermissionKey::Contents);
    lemma_key_names_differ(k, PermissionKey::Deployments);
    lemma_key_names_differ(k, PermissionKey::Discussions);
    lemma_key_names_differ(k, PermissionKey::IdToken);
    lemma_key_names_differ(k, PermissionKey::Issues);
    lemma_key_names_differ(k, PermissionKey::Models);
    lemma_key_names_differ(k, PermissionKey::Packages);
    lemma_key_names_differ(k, PermissionKey::Pages);
    lemma_key_names_differ(k, PermissionKey::PullRequests);
    lemma_key_names_differ(k, PermissionKey::RepositoryProjects);
    lemma_key_names_differ(k, PermissionKey::SecurityEvents);
    lemma_key_names_differ(k, PermissionKey::Statuses);
    reveal_strlit("actions");
    reveal_strlit("attestations");
    reveal_strlit("checks");
    reveal_strlit("contents");
    reveal_strlit("deployments");
    reveal_strlit("discussions");
    reveal_strlit("id-token");
    reveal_strlit("issues");
    reveal_strlit("models");
    reveal_strlit("packages");
    reveal_strlit("pages");
    reveal_strlit("pull-requests");
    reveal_strlit("repository-projects");
    reveal_strlit("security-events");
    reveal_strlit("statuses");
    let n = key_name(k);
    assert(n.len() > 0 && !crate::text::is_ws(n[0]) && !crate::text::is_ws(n.last()));
    assert(crate::text::trim_start_seq(n) == n);
    assert(crate::text::trim_end_seq(n) == n);
}

/// The position of a level in the order none < read < write.
pub open spec fn level_rank(l: PermissionLevel) -> int {
    match l {
        PermissionLevel::NoAccess => 0,
        PermissionLevel::Read => 1,
        PermissionLevel::Write => 2,
    }
}

pub open spec fn level_name(l: PermissionLevel) -> Seq<char> {
    match l {
        PermissionLevel::NoAccess => "none"@,
        PermissionLevel::Read => "read"@,
        PermissionLevel::Write => "write"@,
    }
}

/// The level whose name is `s` once trimmed.
pub open spec fn parse_level_seq(s: Seq<char>) -> Option<PermissionLevel> {
    let t = trim_seq(s);
    if t == "none"@ {
        Some(PermissionLevel::NoAccess)
    } else if t == "read"@ {
        Some(PermissionLevel::Read)
    } else if t == "write"@ {
        Some(PermissionLevel::Write)
    } else {
        None
    }
}

/// Every level's name reads back as that level.
pub proof fn law_level_names(l: PermissionLevel)
    ensures
        parse_level_seq(level_name(l)) == Some(l),
{
    reveal_strlit("none");
    reveal_strlit("read");
    reveal_strlit("write");
    let n = level_name(l);
    assert(crate::text::trim_start_seq(n) == n);
    assert(crate::text::trim_end_seq(n) == n);
}

impl PermissionLevel {
    pub fn as_str(&self) -> (r: &'static str)
        ensures
            r@ == level_name(*self),
    {
        match self {
            PermissionLevel::NoAccess => "none",
            PermissionLevel::Read => "read",
            PermissionLevel::Write => "write",
        }
    }

    pub fn parse(value: &str) -> (r: Option<Self>)
        ensures
            r == parse_level_seq(value@),
    {
        let t = text::trim(value);
        let t = t.as_str();
        if text::str_eq(t, "none") {
            Some(PermissionLevel::NoAccess)
        } else if text::str_eq(t, "read") {
            Some(PermissionLevel::Read)
        } else if text::str_eq(t, "write") {
            Some(PermissionLevel::Write)
        } else {
            None
        }
    }

    /// Whether this level grants at least `required`.
    pub fn satisfies(&self, required: PermissionLevel) -> (r: bool)
        ensures
            r == (level_rank(*self) >= level_rank(required)),
    {
        let mine: u8 = match self {
            PermissionLevel::NoAccess => 0,
            PermissionLevel::Read => 1,
            PermissionLevel::Write => 2,
        };
        let theirs: u8 = match required {
            PermissionLevel::NoAccess => 0,
            PermissionLevel::Read => 1,
            PermissionLevel::Write => 2,
        };
        mine >= theirs
    }
}

/// Granted levels by permission key. `entries` is held in key order, each key
/// once (`entries_sorted`), as a map ordered by key holds it: `insert` keeps
/// that order and every set that parsing or resolution yields has it
/// (`permissions::law_sets_in_key_order`).
#[derive(Debug)]
pub struct PermissionSet {
    pub entries: Vec<(String, PermissionLevel)>,
    pub unknown_keys: Vec<String>,
    pub shorthand: Option<String>,
}

#[verifier::ext_equal]
pub struct PermissionSetView {
    pub entries: Seq<(Seq<char>, PermissionLevel)>,
    pub unknown_keys: Seq<Seq<char>>,
    pub shorthand: Option<Seq<char>>,
}

impl DeepView for PermissionSet {
    type V = PermissionSetView;

    open spec fn deep_view(&self) -> PermissionSetView {
        PermissionSetView {
            entries: self.entries.deep_view(),
            unknown_keys: self.unknown_keys.deep_view(),
            shorthand: self.shorthand.deep_view(),
        }
    }
}

/// The level recorded for `key` in `entries` (the first entry with that key).
pub open spec fn entry_level(entries: Seq<(Seq<char>, PermissionLevel)>, key: Seq<char>) -> Option<
    PermissionLevel,
>
    decreases entries.len(),
{
    if entries.len() == 0 {
        None
    } else if entries[0].0 == key {
        Some(entries[0].1)
    } else {
        entry_level(entries.drop_first(), key)
    }
}

/// Index of the first entry with `key`.
pub open spec fn entry_index(entries: Seq<(Seq<char>, PermissionLevel)>, key: Seq<char>) -> Option<
    int,
>
    decreases entries.len(),
{
    if entries.len() == 0 {
        None
    } else if entries[0].0 == key {
        Some(0)
    } else {
        match entry_index(entries.drop_first(), key) {
            Some(i) => Some(i + 1),
            None => None,
        }
    }
}

/// `entries` after recording `level` for `key`, as an insert into a map kept
/// in key order does: an entry with that key is replaced in place, otherwise
/// a new entry goes before the first greater key.
pub open spec fn entries_insert(
    entries: Seq<(Seq<char>, PermissionLevel)>,
    key: Seq<char>,
    level: PermissionLevel,
) -> Seq<(Seq<char>, PermissionLevel)>
    decreases entries.len(),
{
    if entries.len() == 0 {
        seq![(key, level)]
    } else if entries[0].0 == key {
        seq![(key, level)] + entries.drop_first()
    } else if key_less(key, entries[0].0) {
        seq![(key, level)] + entries
    } else {
        seq![entries[0]] + entries_insert(entries.drop_first(), key, level)
    }
}

/// The keys of `entries` ascend strictly (so none occurs twice).
pub open spec fn entries_sorted(entries: Seq<(Seq<char>, PermissionLevel)>) -> bool {
    forall|i: int, j: int|
        0 <= i < j < entries.len() ==> key_less(#[trigger] entries[i].0, #[trigger] entries[j].0)
}

/// The level a set grants for `key`; keys it does not mention grant none.
pub open spec fn set_level(set: PermissionSetView, key: PermissionKey) -> PermissionLevel {
    match entry_level(set.entries, key_name(key)) {
        Some(l) => l,
        None => PermissionLevel::NoAccess,
    }
}

/// The set with no entries, no unknown keys and no shorthand.
pub open spec fn empty_set() -> PermissionSetView {
    PermissionSetView { entries: Seq::empty(), unknown_keys: Seq::empty(), shorthand: None }
}

pub proof fn lemma_entry_index(entries: Seq<(Seq<char>, PermissionLevel)>, key: Seq<char>)
    ensures
        match entry_index(entries, key) {
            Some(i) => 0 <= i < entries.len() && entries[i].0 == key && entry_level(entries, key)
                == Some(entries[i].1) && forall|j: int| 0 <= j < i ==> entries[j].0 != key,
            None => entry_level(entries, key) is None && forall|j: int|
                0 <= j < entries.len() ==> entries[j].0 != key,
        },
    decreases entries.len(),
{
    if entries.len() > 0 {
        lemma_entry_index(entries.drop_first(), key);
        if entries[0].0 != key {
            assert forall|j: int| 0 < j < entries.len() implies entries[j] == entries.drop_first()[j
                - 1] by {}
        }
    }
}

/// Inserting sets the level of the inserted key and keeps the others, and
/// keeps the keys in order.
pub proof fn lemma_entries_insert(
    entries: Seq<(Seq<char>, PermissionLevel)>,
    key: Seq<char>,
    level: PermissionLevel,
    other: Seq<char>,
)
    ensures
        entry_level(entries_insert(entries, key, level), other) == if other == key {
            Some(level)
        } else {
            entry_level(entries, other)
        },
        entries_sorted(entries) ==> entries_sorted(entries_insert(entries, key, level)),
    decreases entries.len(),
{
    let e2 = entries_insert(entries, key, level);
    if entries.len() > 0 {
        let rest = entries.drop_first();
        lemma_entries_insert(rest, key, level, other);
        lemma_key_order(key, entries[0].0);
        if entries[0].0 == key {
            assert(e2.drop_first() =~= rest);
            assert(e2[0] == (key, level));
            assert(entry_level(e2, other) == entry_level(entries, other) || other == key);
            assert(other == key ==> entry_level(e2, other) == Some(level));
        } else if key_less(key, entries[0].0) {
            assert(e2.drop_first() =~= entries);
            assert(e2[0] == (key, level));
            assert(other != key ==> entry_level(e2, other) == entry_level(entries, other));
            if entries_sorted(entries) {
                assert forall|i: int, j: int| 0 <= i < j < e2.len() implies key_less(
                    #[trigger] e2[i].0,
                    #[trigger] e2[j].0,
                ) by {
                    if i == 0 && j > 1 {
                        lemma_key_less_trans(key, entries[0].0, entries[j - 1].0);
                    }
                }
            }
        } else {
            let r2 = entries_insert(rest, key, level);
            assert(e2.drop_first() =~= r2);
            assert(e2[0] == entries[0]);
            assert(other != key ==> entry_level(e2, other) == entry_level(entries, other));
            assert(other == key ==> entry_level(e2, other) == Some(level));
            if entries_sorted(entries) {
                assert(entries_sorted(rest)) by {
                    assert forall|i: int, j: int| 0 <= i < j < rest.len() implies key_less(
                        #[trigger] rest[i].0,
                        #[trigger] rest[j].0,
                    ) by {
                        assert(rest[i] == entries[i + 1] && rest[j] == entries[j + 1]);
                    }
                }
                lemma_insert_keys(rest, key, level);
                assert forall|i: int, j: int| 0 <= i < j < e2.len() implies key_less(
                    #[trigger] e2[i].0,
                    #[trigger] e2[j].0,
                ) by {
                    if i == 0 {
                        let k2 = r2[j - 1].0;
                        if k2 == key {
                            assert(key_less(entries[0].0, key));
                        } else {
                            let t = choose|t: int| 0 <= t < rest.len() && rest[t].0 == k2;
                            assert(rest[t] == entries[t + 1]);
                        }
                    }
                }
            }
        }
    } else {
        assert(e2.drop_first() =~= Seq::<(Seq<char>, PermissionLevel)>::empty());
        assert(e2[0] == (key, level));
        assert(entry_level(e2.drop_first(), other) is None);
    }
}

/// Every key after an insert is the inserted key or an earlier key.
proof fn lemma_insert_keys(
    entries: Seq<(Seq<char>, PermissionLevel)>,
    key: Seq<char>,
    level: PermissionLevel,
)
    ensures
        forall|j: int|
            0 <= j < entries_insert(entries, key, level).len() ==> (#[trigger] entries_insert(
                entries,
                key,
                level,
            )[j]).0 == key || exists|t: int| 0 <= t < entries.len() && entries[t].0 == entries_insert(
                entries,
                key,
                level,
            )[j].0,
    decreases entries.len(),
{
    let e2 = entries_insert(entries, key, level);
    if entries.len() > 0 {
        let rest = entries.drop_first();
        lemma_insert_keys(rest, key, level);
        assert forall|j: int| 0 <= j < e2.len() implies (#[trigger] e2[j]).0 == key || exists|t: int|
            0 <= t < entries.len() && entries[t].0 == e2[j].0 by {
            if entries[0].0 == key {
                if j > 0 {
                    assert(entries[j].0 == e2[j].0);
                }
            } else if key_less(key, entries[0].0) {
                if j > 0 {
                    assert(entries[j - 1].0 == e2[j].0);
                }
            } else {
                if j == 0 {
                    assert(entries[0].0 == e2[0].0);
                } else {
                    let r2 = entries_insert(rest, key, level);
                    assert(e2[j] == r2[j - 1]);
                    if r2[j - 1].0 != key {
                        let t = choose|t: int| 0 <= t < rest.len() && rest[t].0 == r2[j - 1].0;
                        assert(entries[t + 1].0 == e2[j].0);
                    }
                }
            }
        }
    }
}

/// Inserting past a prefix of smaller keys keeps that prefix.
proof fn lemma_entries_insert_after(
    entries: Seq<(Seq<char>, PermissionLevel)>,
    key: Seq<char>,
    level: PermissionLevel,
    i: int,
)
    requires
        0 <= i <= entries.len(),
        forall|j: int| 0 <= j < i ==> key_less(#[trigger] entries[j].0, key),
    ensures
        entries_insert(entries, key, level) == entries.take(i) + entries_insert(
            entries.skip(i),
            key,
            level,
        ),
    decreases i,
{
    if i > 0 {
        lemma_key_order(entries[0].0, key);
        let rest = entries.drop_first();
        assert forall|j: int| 0 <= j < i - 1 implies key_less(#[trigger] rest[j].0, key) by {
            assert(rest[j] == entries[j + 1]);
        }
        lemma_entries_insert_after(rest, key, level, i - 1);
        assert(rest.skip(i - 1) =~= entries.skip(i));
        assert(entries.take(i) =~= seq![entries[0]] + rest.take(i - 1));
    } else {
        assert(entries.skip(0) =~= entries);
        assert(entries.take(0) =~= Seq::<(Seq<char>, PermissionLevel)>::empty());
    }
}

impl Default for PermissionSet {
    fn default() -> (s: Self)
        ensures
            s.deep_view() == empty_set(),
    {
        let s = PermissionSet { entries: Vec::new(), unknown_keys: Vec::new(), shorthand: None };
        assert(s.deep_view().entries =~= Seq::<(Seq<char>, PermissionLevel)>::empty());
        assert(s.deep_view().unknown_keys =~= Seq::<Seq<char>>::empty());
        s
    }
}

impl PermissionSet {
    /// The level this set grants for `key`.
    pub fn level(&self, key: PermissionKey) -> (r: PermissionLevel)
        ensures
            r == set_level(self.deep_view(), key),
    {
        match self.get(key.as_str()) {
            Some(l) => l,
            None => PermissionLevel::NoAccess,
        }
    }

    /// The level recorded under the name `key`, if any.
    pub fn get(&self, key: &str) -> (r: Option<PermissionLevel>)
        ensures
            r == entry_level(self.deep_view().entries, key@),
    {
        proof {
            lemma_entry_index(self.deep_view().entries, key@);
        }
        match self.index_of(key) {
            Some(i) => Some(self.entries[i].1),
            None => None,
        }
    }

    fn index_of(&self, key: &str) -> (r: Option<usize>)
        ensures
            r is None <==> entry_index(self.deep_view().entries, key@) is None,
            r matches Some(k) ==> entry_index(self.deep_view().entries, key@) == Some(k as int)
                && k < self.entries@.len(),
    {
        let ghost ev = self.deep_view().entries;
        proof {
            lemma_entry_index(ev, key@);
        }
        let mut i: usize = 0;
        while i < self.entries.len()
            invariant
                ev == self.deep_view().entries,
                i <= self.entries@.len(),
                forall|j: int| 0 <= j < i ==> ev[j].0 != key@,
            decreases self.entries.len() - i,
        {
            if text::str_eq(self.entries[i].0.as_str(), key) {
                assert(ev[i as int].0 == key@);
                proof {
                    lemma_entry_index(ev, key@);
                }
                return Some(i);
            }
            i += 1;
        }
        proof {
            lemma_entry_index(ev, key@);
        }
        None
    }

    /// Records `level` for `key`, replacing an earlier record of that key;
    /// entries stay in key order.
    pub fn insert(&mut self, key: String, level: PermissionLevel)
        ensures
            final(self).deep_view() == (PermissionSetView {
                entries: entries_insert(old(self).deep_view().entries, key@, level),
                ..old(self).deep_view()
            }),
            entries_sorted(old(self).deep_view().entries) ==> entries_sorted(
                final(self).deep_view().entries,
            ),
    {
        proof {
            lemma_entries_insert(self.deep_view().entries, key@, level, key@);
        }
        let ghost ev = self.deep_view().entries;
        let mut i: usize = 0;
        while i < self.entries.len() && text::key_less_exec(
            self.entries[i].0.as_str(),
            key.as_str(),
        )
            invariant
                ev == self.deep_view().entries,
                i <= self.entries@.len(),
                forall|j: int| 0 <= j < i ==> key_less(#[trigger] ev[j].0, key@),
            decreases self.entries.len() - i,
        {
            i += 1;
        }
        proof {
            lemma_entries_insert_after(ev, key@, level, i as int);
        }
        let ghost rest = ev.skip(i as int);
        if i < self.entries.len() && text::str_eq(self.entries[i].0.as_str(), key.as_str()) {
            assert(rest[0] == ev[i as int]);
            self.entries.set(i, (key, level));
            assert(self.deep_view().entries =~= ev.take(i as int) + (seq![(key@, level)]
                + rest.drop_first()));
        } else {
            proof {
                if i < ev.len() {
                    assert(rest[0] == ev[i as int]);
                    lemma_key_order(ev[i as int].0, key@);
                }
            }
            self.entries.insert(i, (key, level));
            assert(self.deep_view().entries =~= ev.take(i as int) + entries_insert(
                rest,
                key@,
                level,
            ));
        }
    }

    /// A copy of this set.
    pub fn copy(&self) -> (r: Self)
        ensures
            r.deep_view() == self.deep_view(),
    {
        let mut entries: Vec<(String, PermissionLevel)> = Vec::new();
        let mut i: usize = 0;
        while i < self.entries.len()
            invariant
                i <= self.entries@.len(),
                entries@.len() == i,
                forall|j: int|
                    0 <= j < i ==> (#[trigger] entries@[j]).0@ == self.entries@[j].0@
                        && entries@[j].1 == self.entries@[j].1,
            decreases self.entries.len() - i,
        {
            entries.push((self.entries[i].0.clone(), self.entries[i].1));
            i += 1;
        }
        let r = PermissionSet {
            entries,
            unknown_keys: text::copy_strings(&self.unknown_keys),
            shorthand: text::copy_opt(&self.shorthand),
        };
        assert(r.deep_view().entries =~= self.deep_view().entries);
        r
    }
}

/// A copy of an optional permission set.
pub fn copy_opt_set(s: &Option<PermissionSet>) -> (r: Option<PermissionSet>)
    ensures
        r.deep_view() == s.deep_view(),
{
    match s {
        Some(set) => Some(set.copy()),
        None => None,
    }
}

#[derive(Clone, Copy, Debug, PartialEq, Eq, Structural)]
pub enum PermissionScope {
    Workflow,
    Job,
}

#[derive(Clone, Copy, Debug, PartialEq, Eq, Structural)]
pub enum PermissionSource {
    JobBlock,
    WorkflowBlock,
    DefaultRestricted,
}

#[derive(Debug)]
pub struct PermissionResolution {
    pub scope: PermissionScope,
    pub workflow_permissions: Option<PermissionSet>,
    pub job_permissions: Option<PermissionSet>,
    pub effective: PermissionSet,
    pub source: PermissionSource,
    pub checks: Vec<Check>,
}

#[verifier::ext_equal]
pub struct PermissionResolutionView {
    pub scope: PermissionScope,
    pub workflow_permissions: Option<PermissionSetView>,
    pub job_permissions: Option<PermissionSetView>,
    pub effective: PermissionSetView,
    pub source: PermissionSource,
    pub checks: Seq<CheckView>,
}

impl DeepView for PermissionResolution {
    type V = PermissionResolutionView;

    open spec fn deep_view(&self) -> PermissionResolutionView {
        PermissionResolutionView {
            scope: self.scope,
            workflow_permissions: self.workflow_permissions.deep_view(),
            job_permissions: self.job_permissions.deep_view(),
            effective: self.effective.deep_view(),
            source: self.source,
            checks: self.checks.deep_view(),
        }
    }
}

#[derive(Clone, Copy, Debug, PartialEq, Eq, Structural)]
pub enum Compatibility {
    Exact,
    Simulated,
    Unsupported,
}

impl DeepView for Compatibility {
    type V = Compatibility;

    open spec fn deep_view(&self) -> Compatibility {
        *self
    }
}

pub open spec fn compatibility_name(c: Compatibility) -> Seq<char> {
    match c {
        Compatibility::Exact => "exact"@,
        Compatibility::Simulated => "simulated"@,
        Compatibility::Unsupported => "unsupported"@,
    }
}

impl Compatibility {
    pub fn as_str(&self) -> (r: &'static str)
        ensures
            r@ == compatibility_name(*self),
    {
        match self {
            Compatibility::Exact => "exact",
            Compatibility::Simulated => "simulated",
            Compatibility::Unsupported => "unsupported",
        }
    }
}

#[derive(Clone, Copy, Debug, PartialEq, Eq, Structural)]
pub struct RequiredPermission {
    pub key: PermissionKey,
    pub level: PermissionLevel,
}

impl DeepView for RequiredPermission {
    type V = RequiredPermission;

    open spec fn deep_view(&self) -> RequiredPermission {
        *self
    }
}

#[derive(Debug)]
pub struct CatalogMatch {
    pub endpoint_id: String,
    pub method: String,
    pub path_template: String,
    pub category: String,
    pub required_permissions: Vec<RequiredPermission>,
    pub classification: Compatibility,
    pub side_effect: String,
}

#[verifier::ext_equal]
pub struct CatalogMatchView {
    pub endpoint_id: Seq<char>,
    pub method: Seq<char>,
    pub path_template: Seq<char>,
    pub category: Seq<char>,
    pub required_permissions: Seq<RequiredPermission>,
    pub classification: Compatibility,
    pub side_effect: Seq<char>,
}

impl DeepView for CatalogMatch {
    type V = CatalogMatchView;

    open spec fn deep_view(&self) -> CatalogMatchView {
        CatalogMatchView {
            endpoint_id: self.endpoint_id@,
            method: self.method@,
            path_template: self.path_template@,
            category: self.category@,
            required_permissions: self.required_permissions@,
            classification: self.classification,
            side_effect: self.side_effect@,
        }
    }
}

impl CatalogMatch {
    /// A copy of this match.
    pub fn copy(&self) -> (r: Self)
        ensures
            r.deep_view() == self.deep_view(),
    {
        let mut req: Vec<RequiredPermission> = Vec::new();
        let mut i: usize = 0;
        while i < self.required_permissions.len()
            invariant
                i <= self.required_permissions@.len(),
                req@ == self.required_permissions@.take(i as int),
            decreases self.required_permissions.len() - i,
        {
            req.push(self.required_permissions[i]);
            assert(self.required_permissions@.take(i + 1) =~= self.required_permissions@.take(
                i as int,
            ).push(self.required_permissions@[i as int]));
            i += 1;
        }
        assert(self.required_permissions@.take(i as int) =~= self.required_permissions@);
        CatalogMatch {
            endpoint_id: self.endpoint_id.clone(),
            method: self.method.clone(),
            path_template: self.path_template.clone(),
            category: self.category.clone(),
            required_permissions: req,
            classification: self.classification,
            side_effect: self.side_effect.clone(),
        }
    }
}

#[derive(Debug)]
pub struct CallReport {
    pub method: String,
    pub path: String,
    pub url: Option<String>,
    pub classification: Compatibility,
    pub catalog_match: Option<CatalogMatch>,
    pub unsupported_reason: Option<String>,
    pub permissions: Option<PermissionSet>,
    pub satisfied: bool,
    pub missing_permissions: Vec<RequiredPermission>,
    pub checks: Vec<Check>,
    pub origin: Option<String>,
}

#[verifier::ext_equal]
pub struct CallReportView {
    pub method: Seq<char>,
    pub path: Seq<char>,
    pub url: Option<Seq<char>>,
    pub classification: Compatibility,
    pub catalog_match: Option<CatalogMatchView>,
    pub unsupported_reason: Option<Seq<char>>,
    pub permissions: Option<PermissionSetView>,
    pub satisfied: bool,
    pub missing_permissions: Seq<RequiredPermission>,
    pub checks: Seq<CheckView>,
    pub origin: Option<Seq<char>>,
}

impl DeepView for CallReport {
    type V = CallReportView;

    open spec fn deep_view(&self) -> CallReportView {
        CallReportView {
            method: self.method@,
            path: self.path@,
            url: self.url.deep_view(),
            classification: self.classification,
            catalog_match: self.catalog_match.deep_view(),
            unsupported_reason: self.unsupported_reason.deep_view(),
            permissions: self.permissions.deep_view(),
            satisfied: self.satisfied,
            missing_permissions: self.missing_permissions@,
            checks: self.checks.deep_view(),
            origin: self.origin.deep_view(),
        }
    }
}

#[derive(Debug)]
pub struct WorkflowReport {
    pub workflow: String,
    pub workflow_permissions: Option<PermissionSet>,
    pub jobs: Vec<JobApiReport>,
    pub summary: ReceiptSummary,
    pub checks: Vec<Check>,
}

#[verifier::ext_equal]
pub struct WorkflowReportView {
    pub workflow: Seq<char>,
    pub workflow_permissions: Option<PermissionSetView>,
    pub jobs: Seq<JobApiReportView>,
    pub summary: ReceiptSummary,
    pub checks: Seq<CheckView>,
}

impl DeepView for WorkflowReport {
    type V = WorkflowReportView;

    open spec fn deep_view(&self) -> WorkflowReportView {
        WorkflowReportView {
            workflow: self.workflow@,
            workflow_permissions: self.workflow_permissions.deep_view(),
            jobs: self.jobs.deep_view(),
            summary: self.summary,
            checks: self.checks.deep_view(),
        }
    }
}

#[derive(Debug)]
pub struct JobApiReport {
    pub job_id: String,
    pub permissions: PermissionResolution,
    pub steps: Vec<StepApiReport>,
    pub summary: ReceiptSummary,
    pub checks: Vec<Check>,
}

#[verifier::ext_equal]
pub struct JobApiReportView {
    pub job_id: Seq<char>,
    pub permissions: PermissionResolutionView,
    pub steps: Seq<StepApiReportView>,
    pub summary: ReceiptSummary,
    pub checks: Seq<CheckView>,
}

impl DeepView for JobApiReport {
    type V = JobApiReportView;

    open spec fn deep_view(&self) -> JobApiReportView {
        JobApiReportView {
            job_id: self.job_id@,
            permissions: self.permissions.deep_view(),
            steps: self.steps.deep_view(),
            summary: self.summary,
            checks: self.checks.deep_view(),
        }
    }
}

#[derive(Debug)]
pub struct StepApiReport {
    pub step_index: usize,
    pub step_name: Option<String>,
    pub uses: Option<String>,
    pub detections: Vec<ApiDetection>,
    pub checks: Vec<Check>,
}

#[verifier::ext_equal]
pub struct StepApiReportView {
    pub step_index: usize,
    pub step_name: Option<Seq<char>>,
    pub uses: Option<Seq<char>>,
    pub detections: Seq<ApiDetectionView>,
    pub checks: Seq<CheckView>,
}

impl DeepView for StepApiReport {
    type V = StepApiReportView;

    open spec fn deep_view(&self) -> StepApiReportView {
        StepApiReportView {
            step_index: self.step_index,
            step_name: self.step_name.deep_view(),
            uses: self.uses.deep_view(),
            detections: self.detections.deep_view(),
            checks: self.checks.deep_view(),
        }
    }
}

#[derive(Debug)]
pub struct ApiDetection {
    pub origin: ApiDetectionOrigin,
    pub label: String,
    pub method: String,
    pub path: String,
    pub classification: Compatibility,
    pub catalog_match: Option<CatalogMatch>,
    pub satisfied: bool,
    pub missing_permissions: Vec<RequiredPermission>,
    pub unsupported_reason: Option<String>,
}

#[verifier::ext_equal]
pub struct ApiDetectionView {
    pub origin: ApiDetectionOrigin,
    pub label: Seq<char>,
    pub method: Seq<char>,
    pub path: Seq<char>,
    pub classification: Compatibility,
    pub catalog_match: Option<CatalogMatchView>,
    pub satisfied: bool,
    pub missing_permissions: Seq<RequiredPermission>,
    pub unsupported_reason: Option<Seq<char>>,
}

impl DeepView for ApiDetection {
    type V = ApiDetectionView;

    open spec fn deep_view(&self) -> ApiDetectionView {
        ApiDetectionView {
            origin: self.origin,
            label: self.label@,
            method: self.method@,
            path: self.path@,
            classification: self.classification,
            catalog_match: self.catalog_match.deep_view(),
            satisfied: self.satisfied,
            missing_permissions: self.missing_permissions@,
            unsupported_reason: self.unsupported_reason.deep_view(),
        }
    }
}

#[derive(Clone, Copy, Debug, PartialEq, Eq, Structural)]
pub enum ApiDetectionOrigin {
    GhCli,
    Curl,
    GithubScript,
    ReleaseAction,
    OidcAction,
}

/// An instant in UTC: whole seconds since the Unix epoch and the nanoseconds past them.
#[derive(Clone, Copy, Debug, PartialEq, Eq, Structural)]
pub struct Timestamp {
    pub seconds: i64,
    pub nanos: u32,
}

impl DeepView for Timestamp {
    type V = Timestamp;

    open spec fn deep_view(&self) -> Timestamp {
        *self
    }
}

/// The earliest second chrono represents: the start of year -262143.
pub const EARLIEST_SECOND: i64 = -8_334_601_228_800;

/// The latest second chrono represents: the last second of year 262142.
pub const LATEST_SECOND: i64 = 8_210_266_876_799;

/// An instant that chrono represents, with no leap second.
pub open spec fn timestamp_valid(t: Timestamp) -> bool {
    &&& EARLIEST_SECOND <= t.seconds <= LATEST_SECOND
    &&& t.nanos < 1_000_000_000
}

impl Timestamp {
    /// Whether chrono represents this instant (see `timestamp_valid`).
    pub fn is_valid(&self) -> (r: bool)
        ensures
            r == timestamp_valid(*self),
    {
        EARLIEST_SECOND <= self.seconds && self.seconds <= LATEST_SECOND && self.nanos
            < 1_000_000_000
    }
}

/// Calls chrono's `Utc::now` and takes the instant's whole seconds and
/// nanoseconds. chrono builds it from the system clock's time since the Unix
/// epoch (it panics on a clock set before 1970), so the result is a
/// representable, non-negative instant; which one depends on the clock.
#[verifier::external_body]
pub(crate) fn now_utc() -> (t: Timestamp)
    ensures
        timestamp_valid(t),
        t.seconds >= 0,
{
    let now = chrono::Utc::now();
    Timestamp { seconds: now.timestamp(), nanos: now.timestamp_subsec_nanos() }
}

#[derive(Debug)]
pub struct GhLogReport {
    pub schema_version: u32,
    pub tool: ToolInfo,
    pub captured_at: Option<Timestamp>,
    pub call_count: usize,
    pub redaction_enforced: bool,
    pub calls: Vec<CallReport>,
    pub summary: ReceiptSummary,
    pub checks: Vec<Check>,
}

#[verifier::ext_equal]
pub struct GhLogReportView {
    pub schema_version: u32,
    pub tool: ToolInfoView,
    pub captured_at: Option<Timestamp>,
    pub call_count: usize,
    pub redaction_enforced: bool,
    pub calls: Seq<CallReportView>,
    pub summary: ReceiptSummary,
    pub checks: Seq<CheckView>,
}

impl DeepView for GhLogReport {
    type V = GhLogReportView;

    open spec fn deep_view(&self) -> GhLogReportView {
        GhLogReportView {
            schema_version: self.schema_version,
            tool: self.tool.deep_view(),
            captured_at: self.captured_at,
            call_count: self.call_count,
            redaction_enforced: self.redaction_enforced,
            calls: self.calls.deep_view(),
            summary: self.summary,
            checks: self.checks.deep_view(),
        }
    }
}

#[derive(Debug)]
pub struct OidcReport {
    pub audience: String,
    pub repository: String,
    pub git_ref: String,
    pub sha: String,
    pub workflow: String,
    pub job: String,
    pub job_workflow_ref: String,
    pub run_id: String,
    pub iat: i64,
    pub exp: i64,
    /// The token's claims, in ascending key order, each key once.
    pub claims: Vec<(String, JsonValue)>,
    pub token: String,
    pub signing_mode: String,
    pub compatibility: Compatibility,
    pub permissions: Option<PermissionSet>,
    pub checks: Vec<Check>,
    pub warning: String,
}

#[verifier::ext_equal]
pub struct OidcReportView {
    pub audience: Seq<char>,
    pub repository: Seq<char>,
    pub git_ref: Seq<char>,
    pub sha: Seq<char>,
    pub workflow: Seq<char>,
    pub job: Seq<char>,
    pub job_workflow_ref: Seq<char>,
    pub run_id: Seq<char>,
    pub iat: i64,
    pub exp: i64,
    pub claims: Seq<(Seq<char>, JsonView)>,
    pub token: Seq<char>,
    pub signing_mode: Seq<char>,
    pub compatibility: Compatibility,
    pub permissions: Option<PermissionSetView>,
    pub checks: Seq<CheckView>,
    pub warning: Seq<char>,
}

impl DeepView for OidcReport {
    type V = OidcReportView;

    open spec fn deep_view(&self) -> OidcReportView {
        OidcReportView {
            audience: self.audience@,
            repository: self.repository@,
            git_ref: self.git_ref@,
            sha: self.sha@,
            workflow: self.workflow@,
            job: self.job@,
            job_workflow_ref: self.job_workflow_ref@,
            run_id: self.run_id@,
            iat: self.iat,
            exp: self.exp,
            claims: object_view(self.claims@),
            token: self.token@,
            signing_mode: self.signing_mode@,
            compatibility: self.compatibility,
            permissions: self.permissions.deep_view(),
            checks: self.checks.deep_view(),
            warning: self.warning@,
        }
    }
}

#[derive(Debug)]
pub struct GithubServiceReceipt {
    pub schema_version: u32,
    pub tool: ToolInfo,
    pub checked_at: Timestamp,
    pub mode: String,
    pub summary: ReceiptSummary,
    pub permissions: Option<PermissionResolution>,
    pub workflows: Vec<WorkflowReport>,
    pub calls: Vec<CallReport>,
    pub oidc: Option<OidcReport>,
    pub gh_log: Option<GhLogReport>,
    pub checks: Vec<Check>,
}

#[verifier::ext_equal]
pub struct GithubServiceReceiptView {
    pub schema_version: u32,
    pub tool: ToolInfoView,
    pub checked_at: Timestamp,
    pub mode: Seq<char>,
    pub summary: ReceiptSummary,
    pub permissions: Option<PermissionResolutionView>,
    pub workflows: Seq<WorkflowReportView>,
    pub calls: Seq<CallReportView>,
    pub oidc: Option<OidcReportView>,
    pub gh_log: Option<GhLogReportView>,
    pub checks: Seq<CheckView>,
}

impl DeepView for GithubServiceReceipt {
    type V = GithubServiceReceiptView;

    open spec fn deep_view(&self) -> GithubServiceReceiptView {
        GithubServiceReceiptView {
            schema_version: self.schema_version,
            tool: self.tool.deep_view(),
            checked_at: self.checked_at,
            mode: self.mode@,
            summary: self.summary,
            permissions: self.permissions.deep_view(),
            workflows: self.workflows.deep_view(),
            calls: self.calls.deep_view(),
            oidc: self.oidc.deep_view(),
            gh_log: self.gh_log.deep_view(),
            checks: self.checks.deep_view(),
        }
    }
}

} // verus!
