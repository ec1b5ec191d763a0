//! Replay of a captured `gh` / REST call log ("gh-log bundle").

use vstd::prelude::*;
use vstd::utf8::encode_utf8;

use crate::call::{ClassifyOptions, ClassifyOptionsView, classify, classify_spec};
use crate::model::{
    CallReport, CallReportView, Check, CheckStatus, CheckView, GH_LOG_SCHEMA_VERSION, GhLogReport,
    GhLogReportView, PermissionSet, PermissionSetView, ReceiptSummary, Timestamp, ToolInfo,
    ToolInfoView, check_at, check_of, count_status, lemma_count_concat,
    lemma_statuses_concat, lemma_summary_of, push_statuses, statuses_of, summarizes, summary_fields,
    summary_of, summary_of_statuses,
};
use crate::text;
use crate::text::{concat_all, decimal, eq_ignore_case_seq, lemma_concat_all_take, trim_seq};

verus! {

#[derive(Debug)]
pub struct BundleTool {
    pub name: String,
    pub version: String,
}

impl DeepView for BundleTool {
    type V = ToolInfoView;

    open spec fn deep_view(&self) -> ToolInfoView {
        ToolInfoView { name: self.name@, version: self.version@ }
    }
}

/// One captured call. `request_headers` holds the captured headers in the
/// order the capture lists them (ascending by name in a bundle file).
#[derive(Debug)]
pub struct GhLogCall {
    pub id: String,
    pub timestamp: Option<Timestamp>,
    pub source: String,
    pub method: String,
    pub url: Option<String>,
    pub path: String,
    pub request_headers: Vec<(String, String)>,
    pub request_body_excerpt: Option<String>,
    pub status: Option<u16>,
    pub response_body_excerpt: Option<String>,
    pub exit_code: Option<i32>,
}

#[verifier::ext_equal]
pub struct GhLogCallView {
    pub id: Seq<char>,
    pub timestamp: Option<Timestamp>,
    pub source: Seq<char>,
    pub method: Seq<char>,
    pub url: Option<Seq<char>>,
    pub path: Seq<char>,
    pub request_headers: Seq<(Seq<char>, Seq<char>)>,
    pub request_body_excerpt: Option<Seq<char>>,
    pub status: Option<u16>,
    pub response_body_excerpt: Option<Seq<char>>,
    pub exit_code: Option<i32>,
}

impl DeepView for GhLogCall {
    type V = GhLogCallView;

    open spec fn deep_view(&self) -> GhLogCallView {
        GhLogCallView {
            id: self.id@,
            timestamp: self.timestamp,
            source: self.source@,
            method: self.method@,
            url: self.url.deep_view(),
            path: self.path@,
            request_headers: self.request_headers.deep_view(),
            request_body_excerpt: self.request_body_excerpt.deep_view(),
            status: self.status,
            response_body_excerpt: self.response_body_excerpt.deep_view(),
            exit_code: self.exit_code,
        }
    }
}

#[derive(Debug)]
pub struct GhLogBundle {
    pub schema_version: u32,
    pub tool: BundleTool,
    pub captured_at: Option<Timestamp>,
    pub calls: Vec<GhLogCall>,
}

#[verifier::ext_equal]
pub struct GhLogBundleView {
    pub schema_version: u32,
    pub tool: ToolInfoView,
    pub captured_at: Option<Timestamp>,
    pub calls: Seq<GhLogCallView>,
}

impl DeepView for GhLogBundle {
    type V = GhLogBundleView;

    open spec fn deep_view(&self) -> GhLogBundleView {
        GhLogBundleView {
            schema_version: self.schema_version,
            tool: self.tool.deep_view(),
            captured_at: self.captured_at,
            calls: self.calls.deep_view(),
        }
    }
}

#[derive(Debug)]
pub struct ReplayOptions {
    pub bundle: GhLogBundle,
    pub permissions: Option<PermissionSet>,
    pub unsafe_full_payloads: bool,
}

#[verifier::ext_equal]
pub struct ReplayOptionsView {
    pub bundle: GhLogBundleView,
    pub permissions: Option<PermissionSetView>,
    pub unsafe_full_payloads: bool,
}

impl DeepView for ReplayOptions {
    type V = ReplayOptionsView;

    open spec fn deep_view(&self) -> ReplayOptionsView {
        ReplayOptionsView {
            bundle: self.bundle.deep_view(),
            permissions: self.permissions.deep_view(),
            unsafe_full_payloads: self.unsafe_full_payloads,
        }
    }
}

/// Why a parsed bundle is refused.
#[derive(Clone, Copy, Debug, PartialEq, Eq, Structural)]
pub enum BundleError {
    UnsupportedSchema { found: u32 },
    EmptyToolName,
    EmptyToolVersion,
}

impl BundleError {
    /// The error's message.
    pub fn message(&self) -> (m: String)
        ensures
            m@ == bundle_error_message(*self),
    {
        match self {
            BundleError::UnsupportedSchema { found } => {
                let found_text = text::usize_to_string(*found as usize);
                let expected = text::usize_to_string(GH_LOG_SCHEMA_VERSION as usize);
                text::cat5(
                    "gh-log schema_version ",
                    found_text.as_str(),
                    " is not supported by gha-github-service-proof v1 (expected ",
                    expected.as_str(),
                    ")",
                )
            },
            BundleError::EmptyToolName => text::own("gh-log tool.name must be non-empty"),
            BundleError::EmptyToolVersion => text::own("gh-log tool.version must be non-empty"),
        }
    }
}

pub open spec fn bundle_error_message(e: BundleError) -> Seq<char> {
    match e {
        BundleError::UnsupportedSchema { found } => "gh-log schema_version "@ + decimal(
            found as nat,
        ) + " is not supported by gha-github-service-proof v1 (expected "@ + decimal(
            GH_LOG_SCHEMA_VERSION as nat,
        ) + ")"@,
        BundleError::EmptyToolName => "gh-log tool.name must be non-empty"@,
        BundleError::EmptyToolVersion => "gh-log tool.version must be non-empty"@,
    }
}

/// What a parsed bundle is refused for, if anything: an unsupported schema
/// version first, then a blank tool name, then a blank tool version.
pub open spec fn bundle_problem(b: GhLogBundleView) -> Option<BundleError> {
    if b.schema_version != GH_LOG_SCHEMA_VERSION {
        Some(BundleError::UnsupportedSchema { found: b.schema_version })
    } else if trim_seq(b.tool.name).len() == 0 {
        Some(BundleError::EmptyToolName)
    } else if trim_seq(b.tool.version).len() == 0 {
        Some(BundleError::EmptyToolVersion)
    } else {
        None
    }
}

/// Accepts a parsed bundle that this version can replay, or says why not.
pub fn check_bundle(bundle: GhLogBundle) -> (r: Result<GhLogBundle, BundleError>)
    ensures
        match bundle_problem(bundle.deep_view()) {
            Some(e) => r == Err::<GhLogBundle, BundleError>(e),
            None => r matches Ok(b) && b.deep_view() == bundle.deep_view(),
        },
{
    if bundle.schema_version != GH_LOG_SCHEMA_VERSION {
        return Err(BundleError::UnsupportedSchema { found: bundle.schema_version });
    }
    if text::trim(bundle.tool.name.as_str()).as_str().is_empty() {
        return Err(BundleError::EmptyToolName);
    }
    if text::trim(bundle.tool.version.as_str()).as_str().is_empty() {
        return Err(BundleError::EmptyToolVersion);
    }
    Ok(bundle)
}

/// The value of the first header whose name equals `name`, ignoring ASCII case.
pub open spec fn find_header_spec(headers: Seq<(Seq<char>, Seq<char>)>, name: Seq<char>) -> Option<
    Seq<char>,
>
    decreases headers.len(),
{
    if headers.len() == 0 {
        None
    } else if eq_ignore_case_seq(headers[0].0, name) {
        Some(headers[0].1)
    } else {
        find_header_spec(headers.drop_first(), name)
    }
}

/// The value of the first header whose name equals `name`, ignoring ASCII case.
pub fn find_header<'a>(headers: &'a Vec<(String, String)>, name: &str) -> (r: Option<&'a str>)
    ensures
        match find_header_spec(headers.deep_view(), name@) {
            Some(v) => r matches Some(x) && x@ == v,
            None => r is None,
        },
{
    let ghost hv = headers.deep_view();
    assert(hv.skip(0) =~= hv);
    let mut i: usize = 0;
    while i < headers.len()
        invariant
            i <= headers@.len(),
            hv == headers.deep_view(),
            find_header_spec(hv, name@) == find_header_spec(hv.skip(i as int), name@),
        decreases headers.len() - i,
    {
        assert(hv.skip(i as int).drop_first() =~= hv.skip(i + 1));
        assert(hv.skip(i as int)[0] == hv[i as int]);
        if text::eq_ignore_ascii_case(headers[i].0.as_str(), name) {
            return Some(headers[i].1.as_str());
        }
        i += 1;
    }
    None
}

/// Where the checks about a call point: `call <id> (<source>)`.
pub open spec fn call_location(c: GhLogCallView) -> Seq<char> {
    "call "@ + c.id + " ("@ + c.source + ")"@
}

pub open spec fn unredacted_message(c: GhLogCallView, value: Seq<char>) -> Seq<char> {
    "call "@ + c.id
        + " authorization header is not '<redacted>'; gh-log schema contract requires redacted captures unless --unsafe-full-payloads is set (header bytes were "@
        + decimal((encode_utf8(value).len() as usize) as nat) + " chars)"@
}

pub open spec fn absent_message(c: GhLogCallView) -> Seq<char> {
    "call "@ + c.id + " has no authorization header; assume unauthenticated or redacted upstream"@
}

/// Whether the call's authorization header is present and not `<redacted>`.
pub open spec fn call_unredacted(c: GhLogCallView) -> bool {
    match find_header_spec(c.request_headers, "authorization"@) {
        Some(v) => v != "<redacted>"@,
        None => false,
    }
}

/// The checks that the redaction contract asks of one call.
pub open spec fn header_checks(c: GhLogCallView) -> Seq<CheckView> {
    match find_header_spec(c.request_headers, "authorization"@) {
        Some(v) => if v == "<redacted>"@ {
            Seq::empty()
        } else {
            seq![
                check_at(
                    "gh_log.authorization_not_redacted"@,
                    CheckStatus::Fail,
                    unredacted_message(c, v),
                    call_location(c),
                ),
            ]
        },
        None => seq![
            check_at(
                "gh_log.authorization_absent"@,
                CheckStatus::Warn,
                absent_message(c),
                call_location(c),
            ),
        ],
    }
}

pub open spec fn upstream_message(status: u16) -> Seq<char> {
    "captured response status is "@ + decimal(status as nat)
        + "; ci-forge classification reflects request shape, not response failure"@
}

/// The report of one replayed call: its classification, with a warning
/// appended when the captured response was an error.
pub open spec fn replay_call_spec(
    c: GhLogCallView,
    permissions: Option<PermissionSetView>,
) -> CallReportView {
    let r = classify_spec(
        ClassifyOptionsView {
            method: c.method,
            path: c.path,
            url: c.url,
            origin: Some(call_location(c)),
            permissions,
        },
    );
    match c.status {
        Some(s) => if s >= 400 {
            CallReportView {
                checks: r.checks.push(
                    check_at(
                        "gh_log.upstream_error"@,
                        CheckStatus::Warn,
                        upstream_message(s),
                        call_location(c),
                    ),
                ),
                ..r
            }
        } else {
            r
        },
        None => r,
    }
}

pub open spec fn unsafe_warning() -> CheckView {
    check_of(
        "gh_log.unsafe_full_payloads"@,
        CheckStatus::Warn,
        "redaction-by-schema-contract is disabled (--unsafe-full-payloads). Bodies and authorization headers will not be checked. Use only for local debugging."@,
    )
}

pub open spec fn no_calls_warning() -> CheckView {
    check_of("gh_log.no_calls"@, CheckStatus::Warn, "gh-log bundle contains zero captured calls"@)
}

/// The bundle-level checks: the unsafe-mode warning, the empty-bundle
/// warning, then, unless in unsafe mode, the header checks call by call.
pub open spec fn replay_checks(o: ReplayOptionsView) -> Seq<CheckView> {
    let calls = o.bundle.calls;
    let first = if o.unsafe_full_payloads {
        seq![unsafe_warning()]
    } else {
        Seq::empty()
    };
    let second = if calls.len() == 0 {
        seq![no_calls_warning()]
    } else {
        Seq::empty()
    };
    let headers = if o.unsafe_full_payloads {
        Seq::empty()
    } else {
        concat_all(Seq::new(calls.len(), |i: int| header_checks(calls[i])))
    };
    first + second + headers
}

pub open spec fn replay_calls(o: ReplayOptionsView) -> Seq<CallReportView> {
    Seq::new(
        o.bundle.calls.len(),
        |i: int| replay_call_spec(o.bundle.calls[i], o.permissions),
    )
}

/// Everything a replay summary counts: the checks of each call report, then
/// the bundle-level checks.
pub open spec fn replay_counted(o: ReplayOptionsView) -> Seq<CheckView> {
    let calls = replay_calls(o);
    concat_all(Seq::new(calls.len(), |i: int| calls[i].checks)) + replay_checks(o)
}

/// The report of a replay.
pub open spec fn replay_spec(o: ReplayOptionsView) -> GhLogReportView {
    let calls = replay_calls(o);
    GhLogReportView {
        schema_version: o.bundle.schema_version,
        tool: o.bundle.tool,
        captured_at: o.bundle.captured_at,
        call_count: calls.len() as usize,
        redaction_enforced: !o.unsafe_full_payloads && forall|i: int|
            0 <= i < o.bundle.calls.len() ==> !call_unredacted(#[trigger] o.bundle.calls[i]),
        calls,
        summary: summary_of(replay_counted(o)),
        checks: replay_checks(o),
    }
}

/// Replays one call: the header checks it adds to `checks` (unless in unsafe
/// mode) and its report.
fn replay_one(
    call: &GhLogCall,
    permissions: &Option<PermissionSet>,
    unsafe_full_payloads: bool,
    checks: &mut Vec<Check>,
) -> (r: (CallReport, bool))
    ensures
        r.0.deep_view() == replay_call_spec(call.deep_view(), permissions.deep_view()),
        final(checks).deep_view() == old(checks).deep_view() + (if unsafe_full_payloads {
            Seq::empty()
        } else {
            header_checks(call.deep_view())
        }),
        r.1 == (!unsafe_full_payloads && call_unredacted(call.deep_view())),
{
    let ghost c = call.deep_view();
    let ghost before = checks.deep_view();
    let location = text::cat5("call ", call.id.as_str(), " (", call.source.as_str(), ")");
    let mut unredacted = false;
    if !unsafe_full_payloads {
        match find_header(&call.request_headers, "authorization") {
            Some(value) => {
                if !text::str_eq(value, "<redacted>") {
                    let count = text::usize_to_string(value.len());
                    let message = text::cat5(
                        "call ",
                        call.id.as_str(),
                        " authorization header is not '<redacted>'; gh-log schema contract requires redacted captures unless --unsafe-full-payloads is set (header bytes were ",
                        count.as_str(),
                        " chars)",
                    );
                    let check = Check::fail(
                        text::own("gh_log.authorization_not_redacted"),
                        message,
                    ).at(location.clone());
                    checks.push(check);
                    unredacted = true;
                    assert(checks.deep_view() =~= before + header_checks(c));
                } else {
                    assert(checks.deep_view() =~= before + header_checks(c));
                }
            },
            None => {
                let message = text::cat3(
                    "call ",
                    call.id.as_str(),
                    " has no authorization header; assume unauthenticated or redacted upstream",
                );
                let check = Check::warn(text::own("gh_log.authorization_absent"), message).at(
                    location.clone(),
                );
                checks.push(check);
                assert(checks.deep_view() =~= before + header_checks(c));
            },
        }
    } else {
        assert(checks.deep_view() =~= before + Seq::<CheckView>::empty());
    }
    let mut report = classify(
        ClassifyOptions {
            method: call.method.clone(),
            path: call.path.clone(),
            url: text::copy_opt(&call.url),
            origin: Some(location.clone()),
            permissions: crate::model::copy_opt_set(permissions),
        },
    );
    match call.status {
        Some(status) => {
            if status >= 400 {
                let code = text::usize_to_string(status as usize);
                let message = text::cat3(
                    "captured response status is ",
                    code.as_str(),
                    "; ci-forge classification reflects request shape, not response failure",
                );
                let check = Check::warn(text::own("gh_log.upstream_error"), message).at(location);
                report.checks.push(check);
            }
        },
        None => {},
    }
    assert(report.deep_view() =~= replay_call_spec(c, permissions.deep_view()));
    (report, unredacted)
}

/// Replays a captured bundle: classifies each call and checks the bundle's
/// redaction contract.
#[verifier::rlimit(40)]
pub fn replay(options: ReplayOptions) -> (r: GhLogReport)
    ensures
        r.deep_view() == replay_spec(options.deep_view()),
        summarizes(r.summary, replay_counted(options.deep_view())),
{
    let ghost o = options.deep_view();
    let bundle = options.bundle;
    let permissions = options.permissions;
    let unsafe_full_payloads = options.unsafe_full_payloads;
    let ghost cv = o.bundle.calls;
    let ghost all_reports = replay_calls(o);
    let ghost all_call_checks = Seq::new(all_reports.len(), |i: int| all_reports[i].checks);
    let ghost heads = Seq::new(cv.len(), |i: int| header_checks(cv[i]));

    let mut checks: Vec<Check> = Vec::new();
    let mut statuses: Vec<CheckStatus> = Vec::new();
    let mut calls: Vec<CallReport> = Vec::new();
    let mut redaction_enforced = !unsafe_full_payloads;

    if unsafe_full_payloads {
        checks.push(
            Check::warn(
                text::own("gh_log.unsafe_full_payloads"),
                text::own(
                    "redaction-by-schema-contract is disabled (--unsafe-full-payloads). Bodies and authorization headers will not be checked. Use only for local debugging.",
                ),
            ),
        );
    }
    if bundle.calls.len() == 0 {
        checks.push(
            Check::warn(
                text::own("gh_log.no_calls"),
                text::own("gh-log bundle contains zero captured calls"),
            ),
        );
    }
    let ghost prefix = checks.deep_view();
    assert(prefix =~= (if unsafe_full_payloads {
        seq![unsafe_warning()]
    } else {
        Seq::empty()
    }) + (if cv.len() == 0 {
        seq![no_calls_warning()]
    } else {
        Seq::empty()
    }));
    assert(heads.take(0) =~= Seq::<Seq<CheckView>>::empty());
    assert(all_call_checks.take(0) =~= Seq::<Seq<CheckView>>::empty());
    assert(checks.deep_view() =~= prefix + Seq::<CheckView>::empty());
    assert(statuses@ =~= statuses_of(concat_all(all_call_checks.take(0))));
    let mut i: usize = 0;
    while i < bundle.calls.len()
        invariant
            cv == bundle.calls.deep_view(),
            cv == o.bundle.calls,
            permissions.deep_view() == o.permissions,
            unsafe_full_payloads == o.unsafe_full_payloads,
            all_reports == replay_calls(o),
            all_reports.len() == cv.len(),
            all_call_checks == Seq::new(all_reports.len(), |i: int| all_reports[i].checks),
            heads == Seq::new(cv.len(), |i: int| header_checks(cv[i])),
            i <= cv.len(),
            checks.deep_view() == prefix + (if unsafe_full_payloads {
                Seq::empty()
            } else {
                concat_all(heads.take(i as int))
            }),
            calls.deep_view() == all_reports.take(i as int),
            statuses@ == statuses_of(concat_all(all_call_checks.take(i as int))),
            redaction_enforced == (!unsafe_full_payloads && forall|j: int|
                0 <= j < i ==> !call_unredacted(#[trigger] cv[j])),
        decreases bundle.calls.len() - i,
    {
        let ghost before_checks = checks.deep_view();
        proof {
            lemma_concat_all_take(heads, i as int);
            lemma_concat_all_take(all_call_checks, i as int);
        }
        let (report, unredacted) = replay_one(
            &bundle.calls[i],
            &permissions,
            unsafe_full_payloads,
            &mut checks,
        );
        assert(cv[i as int] == bundle.calls@[i as int].deep_view());
        assert(all_reports[i as int] == report.deep_view());
        assert(all_call_checks[i as int] == report.checks.deep_view());
        if unredacted {
            redaction_enforced = false;
        }
        push_statuses(&mut statuses, report.checks.as_slice());
        proof {
            lemma_statuses_concat(concat_all(all_call_checks.take(i as int)), report.checks.deep_view());
        }
        let ghost before_calls = calls.deep_view();
        let ghost rv = report.deep_view();
        calls.push(report);
        assert(calls.deep_view() =~= before_calls.push(rv));
        assert(calls.deep_view() =~= all_reports.take(i + 1));
        assert(checks.deep_view() =~= prefix + (if unsafe_full_payloads {
            Seq::empty()
        } else {
            concat_all(heads.take(i + 1))
        }));
        i += 1;
    }
    assert(heads.take(i as int) =~= heads);
    assert(all_call_checks.take(i as int) =~= all_call_checks);
    assert(calls.deep_view() =~= all_reports);
    assert(checks.deep_view() =~= replay_checks(o));
    push_statuses(&mut statuses, checks.as_slice());
    proof {
        lemma_statuses_concat(concat_all(all_call_checks), checks.deep_view());
    }
    let summary = summary_of_statuses(&statuses, Ghost(replay_counted(o)));
    proof {
        lemma_summary_of(summary, replay_counted(o));
    }
    let call_count = calls.len();
    let r = GhLogReport {
        schema_version: bundle.schema_version,
        tool: ToolInfo { name: bundle.tool.name, version: bundle.tool.version },
        captured_at: bundle.captured_at,
        call_count,
        redaction_enforced,
        calls,
        summary,
        checks,
    };
    assert(r.deep_view() =~= replay_spec(o));
    r
}

/// The number of checks with `status` in the call reports, report by report.
pub open spec fn calls_status_count(calls: Seq<CallReportView>, status: CheckStatus) -> int
    decreases calls.len(),
{
    if calls.len() == 0 {
        0
    } else {
        calls_status_count(calls.drop_last(), status) + count_status(calls.last().checks, status)
    }
}

proof fn lemma_calls_status_count(calls: Seq<CallReportView>, status: CheckStatus)
    ensures
        count_status(concat_all(Seq::new(calls.len(), |i: int| calls[i].checks)), status)
            == calls_status_count(calls, status),
    decreases calls.len(),
{
    let parts = Seq::new(calls.len(), |i: int| calls[i].checks);
    if calls.len() > 0 {
        let rest = calls.drop_last();
        lemma_calls_status_count(rest, status);
        assert(parts.drop_last() =~= Seq::new(rest.len(), |i: int| rest[i].checks));
        lemma_count_concat(concat_all(parts.drop_last()), parts.last(), status);
    }
}

/// What a replay's summary counts adds up, status by status, the checks of
/// each call report and the bundle-level checks (`replay` states that its
/// summary holds these counts).
pub proof fn law_replay_summary_adds_up(o: ReplayOptionsView, status: CheckStatus)
    ensures
        count_status(replay_counted(o), status) == calls_status_count(replay_spec(o).calls, status)
            + count_status(replay_spec(o).checks, status),
{
    let calls = replay_calls(o);
    let parts = Seq::new(calls.len(), |i: int| calls[i].checks);
    assert(replay_counted(o) == concat_all(parts) + replay_checks(o));
    lemma_calls_status_count(calls, status);
    lemma_count_concat(concat_all(parts), replay_checks(o), status);
}

/// Whether some check in `checks` has the id `id`.
pub open spec fn has_check_id(checks: Seq<CheckView>, id: Seq<char>) -> bool {
    exists|k: int| 0 <= k < checks.len() && #[trigger] checks[k].id == id
}

proof fn lemma_has_check_id_concat(a: Seq<CheckView>, b: Seq<CheckView>, id: Seq<char>)
    ensures
        has_check_id(a + b, id) == (has_check_id(a, id) || has_check_id(b, id)),
{
    let ab = a + b;
    if has_check_id(ab, id) {
        let k = choose|k: int| 0 <= k < ab.len() && #[trigger] ab[k].id == id;
        if k < a.len() {
            assert(a[k] == ab[k]);
        } else {
            assert(b[k - a.len()] == ab[k]);
        }
    }
    if has_check_id(a, id) {
        let k = choose|k: int| 0 <= k < a.len() && #[trigger] a[k].id == id;
        assert(ab[k] == a[k]);
    }
    if has_check_id(b, id) {
        let k = choose|k: int| 0 <= k < b.len() && #[trigger] b[k].id == id;
        assert(ab[k + a.len()] == b[k]);
    }
}

proof fn lemma_has_check_id_all(parts: Seq<Seq<CheckView>>, id: Seq<char>)
    ensures
        has_check_id(concat_all(parts), id) == exists|i: int|
            0 <= i < parts.len() && has_check_id(#[trigger] parts[i], id),
    decreases parts.len(),
{
    if parts.len() > 0 {
        let rest = parts.drop_last();
        lemma_has_check_id_all(rest, id);
        lemma_has_check_id_concat(concat_all(rest), parts.last(), id);
        if exists|i: int| 0 <= i < rest.len() && has_check_id(#[trigger] rest[i], id) {
            let i = choose|i: int| 0 <= i < rest.len() && has_check_id(#[trigger] rest[i], id);
            assert(parts[i] == rest[i]);
        }
        if exists|i: int| 0 <= i < parts.len() && has_check_id(#[trigger] parts[i], id) {
            let i = choose|i: int| 0 <= i < parts.len() && has_check_id(#[trigger] parts[i], id);
            if i < rest.len() {
                assert(parts[i] == rest[i]);
            }
        }
    } else {
        assert(concat_all(parts).len() == 0);
    }
}

/// A replay is redaction-enforced exactly when it is not in unsafe mode and
/// raised no `gh_log.authorization_not_redacted` failure; in unsafe mode no
/// header is checked and the unsafe-mode warning comes first.
pub proof fn law_redaction_enforced(o: ReplayOptionsView)
    ensures
        replay_spec(o).redaction_enforced == (!o.unsafe_full_payloads && !has_check_id(
            replay_checks(o),
            "gh_log.authorization_not_redacted"@,
        )),
        o.unsafe_full_payloads ==> replay_checks(o)[0] == unsafe_warning() && replay_checks(o).len()
            == if o.bundle.calls.len() == 0 {
            2int
        } else {
            1int
        },
{
    reveal_strlit("gh_log.authorization_not_redacted");
    reveal_strlit("gh_log.authorization_absent");
    reveal_strlit("gh_log.unsafe_full_payloads");
    reveal_strlit("gh_log.no_calls");
    let id = "gh_log.authorization_not_redacted"@;
    let calls = o.bundle.calls;
    let first = if o.unsafe_full_payloads {
        seq![unsafe_warning()]
    } else {
        Seq::empty()
    };
    let second = if calls.len() == 0 {
        seq![no_calls_warning()]
    } else {
        Seq::empty()
    };
    let parts = Seq::new(calls.len(), |i: int| header_checks(calls[i]));
    assert(!has_check_id(first, id)) by {
        if o.unsafe_full_payloads {
            assert(first[0].id.len() != id.len());
        }
    }
    assert(!has_check_id(second, id)) by {
        if calls.len() == 0 {
            assert(second[0].id.len() != id.len());
        }
    }
    lemma_has_check_id_concat(first, second, id);
    if !o.unsafe_full_payloads {
        let headers = concat_all(parts);
        lemma_has_check_id_concat(first + second, headers, id);
        lemma_has_check_id_all(parts, id);
        assert forall|i: int| 0 <= i < calls.len() implies has_check_id(#[trigger] parts[i], id)
            == call_unredacted(calls[i]) by {
            let c = calls[i];
            assert(parts[i] == header_checks(c));
            match find_header_spec(c.request_headers, "authorization"@) {
                Some(v) => {
                    if v != "<redacted>"@ {
                        assert(parts[i][0].id == id);
                    }
                },
                None => {
                    assert(parts[i][0].id.len() != id.len());
                },
            }
        }
        if has_check_id(headers, id) {
            let i = choose|i: int| 0 <= i < parts.len() && has_check_id(#[trigger] parts[i], id);
            assert(call_unredacted(calls[i]));
        }
        if exists|j: int| 0 <= j < calls.len() && call_unredacted(#[trigger] calls[j]) {
            let j = choose|j: int| 0 <= j < calls.len() && call_unredacted(#[trigger] calls[j]);
            assert(has_check_id(parts[j], id));
        }
        assert(replay_checks(o) == first + second + headers);
    } else {
        assert(replay_checks(o) == first + second + Seq::<CheckView>::empty());
        assert(replay_checks(o) =~= first + second);
    }
}

} // verus!
