//! Classification of a single API call against the catalog and a permission set.

use vstd::prelude::*;

use crate::catalog;
use crate::catalog::{
    CATALOG_LEN, catalog_entry, first_match_from, is_graphql_seq, law_catalog_classification,
    entry_matches, law_catalog_write_for_mutations, law_lookup_first_match, lookup_spec,
    lookup_upper_spec, match_of, mutating_method, required_of, strip_query_seq,
};
use crate::model::{
    CallReport, CallReportView, CatalogMatchView, Check, CheckStatus, CheckView, Compatibility,
    PermissionLevel, PermissionSet, PermissionSetView, ReceiptSummary, RequiredPermission, check_at,
    compatibility_name, copy_opt_set, key_name, level_name, set_level, summarizes,
};
use crate::permissions;
use crate::permissions::{grants, lemma_missing_empty, missing_seq};
use crate::text;
use crate::text::{
    ascii_lower, ascii_upper_seq, eq_ignore_case_seq, is_ascii_seq, join_seq, trim_seq, uppercase_of,
};

verus! {

pub const GRAPHQL_REASON: &'static str = "graphql.classification_not_implemented";

pub const OFF_CATALOG_REASON: &'static str = "rest.endpoint_not_in_catalog";

pub const GRAPHQL_MESSAGE: &'static str = "graphql.classification_not_implemented: /graphql operations are not classified by v1.0; ci-forge should treat the call as unsupported until a future release adds operation parsing";

#[derive(Debug)]
pub struct ClassifyOptions {
    pub method: String,
    pub path: String,
    pub url: Option<String>,
    pub origin: Option<String>,
    pub permissions: Option<PermissionSet>,
}

#[verifier::ext_equal]
pub struct ClassifyOptionsView {
    pub method: Seq<char>,
    pub path: Seq<char>,
    pub url: Option<Seq<char>>,
    pub origin: Option<Seq<char>>,
    pub permissions: Option<PermissionSetView>,
}

impl DeepView for ClassifyOptions {
    type V = ClassifyOptionsView;

    open spec fn deep_view(&self) -> ClassifyOptionsView {
        ClassifyOptionsView {
            method: self.method@,
            path: self.path@,
            url: self.url.deep_view(),
            origin: self.origin.deep_view(),
            permissions: self.permissions.deep_view(),
        }
    }
}

/// Whether a permission set (if any) covers `required`, and what it misses.
/// Without a set, only an empty requirement is covered and all of it is missing.
pub open spec fn evaluate_spec(set: Option<PermissionSetView>, required: Seq<RequiredPermission>) -> (
    bool,
    Seq<RequiredPermission>,
) {
    match set {
        None => if required.len() == 0 {
            (true, Seq::empty())
        } else {
            (false, required)
        },
        Some(s) => {
            let missing = missing_seq(s, required);
            (missing.len() == 0, missing)
        },
    }
}

/// `key:level` for each requirement, joined by `, `; `(none)` when empty.
pub open spec fn format_required_spec(required: Seq<RequiredPermission>) -> Seq<char> {
    if required.len() == 0 {
        "(none)"@
    } else {
        join_seq(
            Seq::new(
                required.len(),
                |i: int| key_name(required[i].key) + ":"@ + level_name(required[i].level),
            ),
            ", "@,
        )
    }
}

/// The check a call that the catalog knows receives.
pub open spec fn catalog_check_spec(
    method: Seq<char>,
    path: Seq<char>,
    location: Seq<char>,
    m: CatalogMatchView,
    permissions: Option<PermissionSetView>,
) -> CheckView {
    let (satisfied, missing) = evaluate_spec(permissions, m.required_permissions);
    let head = method + " "@ + path + " maps to "@ + m.endpoint_id + " ("@ + compatibility_name(
        m.classification,
    ) + "); "@;
    if m.required_permissions.len() == 0 {
        check_at(
            "call."@ + m.endpoint_id,
            CheckStatus::Pass,
            head + "no specific permission scopes are required"@,
            location,
        )
    } else if satisfied {
        check_at(
            "call."@ + m.endpoint_id,
            CheckStatus::Pass,
            head + "granted permissions satisfy required scopes"@,
            location,
        )
    } else if permissions is None {
        check_at(
            "call."@ + m.endpoint_id + ".permissions_unknown"@,
            CheckStatus::Warn,
            head + "no permissions provided so requirement "@ + format_required_spec(
                m.required_permissions,
            ) + " cannot be evaluated"@,
            location,
        )
    } else {
        check_at(
            "call."@ + m.endpoint_id + ".permissions_insufficient"@,
            CheckStatus::Fail,
            head + "missing "@ + format_required_spec(missing),
            location,
        )
    }
}

/// The report for a call: its method trimmed and uppercased, then classified
/// as `classify_upper_spec` says.
pub open spec fn classify_spec(o: ClassifyOptionsView) -> CallReportView {
    classify_upper_spec(o, uppercase_of(trim_seq(o.method)))
}

/// The report for a call whose method, already trimmed and uppercased, is
/// `method`: `/graphql` and off-catalog calls are unsupported; a catalog call
/// takes the entry's classification and is checked against the permission set.
pub open spec fn classify_upper_spec(o: ClassifyOptionsView, method: Seq<char>) -> CallReportView {
    let path = o.path;
    let location = match o.origin {
        Some(x) => x,
        None => method + " "@ + path,
    };
    if is_graphql_seq(path) {
        CallReportView {
            method,
            path,
            url: o.url,
            classification: Compatibility::Unsupported,
            catalog_match: None,
            unsupported_reason: Some(GRAPHQL_REASON@),
            permissions: o.permissions,
            satisfied: false,
            missing_permissions: Seq::empty(),
            checks: seq![
                check_at(
                    "call.graphql_classification_not_implemented"@,
                    CheckStatus::Fail,
                    GRAPHQL_MESSAGE@,
                    location,
                ),
            ],
            origin: o.origin,
        }
    } else {
        match lookup_upper_spec(method, path) {
            None => CallReportView {
                method,
                path,
                url: o.url,
                classification: Compatibility::Unsupported,
                catalog_match: None,
                unsupported_reason: Some(OFF_CATALOG_REASON@),
                permissions: o.permissions,
                satisfied: false,
                missing_permissions: Seq::empty(),
                checks: seq![
                    check_at(
                        "call.endpoint_not_in_catalog"@,
                        CheckStatus::Warn,
                        "rest.endpoint_not_in_catalog: "@ + method + " "@ + path
                            + " is not covered by the v1.0 CI-relevant catalog; ci-forge should classify as unsupported"@,
                        location,
                    ),
                ],
                origin: o.origin,
            },
            Some(m) => {
                let (satisfied, missing) = evaluate_spec(o.permissions, m.required_permissions);
                CallReportView {
                    method,
                    path,
                    url: o.url,
                    classification: m.classification,
                    catalog_match: Some(m),
                    unsupported_reason: None,
                    permissions: o.permissions,
                    satisfied,
                    missing_permissions: missing,
                    checks: seq![catalog_check_spec(method, path, location, m, o.permissions)],
                    origin: o.origin,
                }
            },
        }
    }
}

proof fn lemma_first_match_in_range(method: Seq<char>, path: Seq<char>, k: int)
    requires
        0 <= k,
    ensures
        first_match_from(method, path, k) matches Some(i) ==> k <= i < CATALOG_LEN,
    decreases CATALOG_LEN - k,
{
    if k < CATALOG_LEN {
        lemma_first_match_in_range(method, path, k + 1);
    }
}

/// A call is unsupported exactly when it is a `/graphql` call or no catalog
/// entry matches it, and the reason says which; only a catalog call can be
/// satisfied.
pub proof fn law_classification_boundary(o: ClassifyOptionsView)
    ensures
        (classify_spec(o).classification == Compatibility::Unsupported) == (is_graphql_seq(o.path)
            || lookup_spec(o.method, o.path) is None),
        is_graphql_seq(o.path) ==> classify_spec(o).unsupported_reason == Some(GRAPHQL_REASON@),
        !is_graphql_seq(o.path) && lookup_spec(o.method, o.path) is None
            ==> classify_spec(o).unsupported_reason == Some(OFF_CATALOG_REASON@),
        classify_spec(o).satisfied ==> classify_spec(o).classification
            != Compatibility::Unsupported,
{
    let method = uppercase_of(trim_seq(o.method));
    lemma_first_match_in_range(method, strip_query_seq(o.path), 0);
    match first_match_from(method, strip_query_seq(o.path), 0) {
        Some(i) => {
            law_catalog_classification(i);
        },
        None => {},
    }
}

/// A state-changing call (`POST`, `PUT`, `PATCH` or `DELETE`) that the
/// catalog serves needs write access: its entry requires at least one
/// permission, each at `write`, and the call is satisfied only when the given
/// permissions grant `write` on every key the entry names (never without
/// permissions).
pub proof fn law_mutating_calls_need_write(o: ClassifyOptionsView, method: Seq<char>)
    requires
        mutating_method(method),
    ensures
        classify_upper_spec(o, method).catalog_match matches Some(m) ==> m.required_permissions.len()
            >= 1 && forall|j: int|
            0 <= j < m.required_permissions.len() ==> (#[trigger] m.required_permissions[j]).level
                == PermissionLevel::Write,
        classify_upper_spec(o, method).satisfied ==> o.permissions is Some && forall|j: int|
            0 <= j < classify_upper_spec(o, method).catalog_match->0.required_permissions.len()
                ==> set_level(
                o.permissions->0,
                (#[trigger] classify_upper_spec(o, method).catalog_match->0.required_permissions[j]).key,
            ) == PermissionLevel::Write,
{
    let r = classify_upper_spec(o, method);
    law_lookup_first_match(method, o.path);
    if !is_graphql_seq(o.path) && lookup_upper_spec(method, o.path) is Some {
        let m = lookup_upper_spec(method, o.path)->0;
        let i = choose|i: int|
            0 <= i < CATALOG_LEN && m == match_of(catalog_entry(i)) && entry_matches(
                #[trigger] catalog_entry(i),
                method,
                strip_query_seq(o.path),
            ) && forall|j: int|
                0 <= j < i ==> !entry_matches(
                    #[trigger] catalog_entry(j),
                    method,
                    strip_query_seq(o.path),
                );
        let e = catalog_entry(i);
        law_catalog_write_for_mutations(i);
        reveal_strlit("GET");
        reveal_strlit("POST");
        reveal_strlit("PUT");
        reveal_strlit("PATCH");
        reveal_strlit("DELETE");
        if e.method == "GET"@ {
            assert(eq_ignore_case_seq(e.method, method));
            assert(method.len() == 3);
            assert(method == "PUT"@);
            assert(ascii_lower(e.method[0]) == ascii_lower(method[0]));
            assert(false);
        }
        assert(mutating_method(e.method));
        let req = m.required_permissions;
        assert(req == required_of(e.required));
        assert forall|j: int| 0 <= j < req.len() implies (#[trigger] req[j]).level
            == PermissionLevel::Write by {
            assert(req[j].level == e.required[j].1);
        }
        match o.permissions {
            Some(set) => {
                lemma_missing_empty(set, req);
                if r.satisfied {
                    assert forall|j: int| 0 <= j < req.len() implies set_level(
                        set,
                        (#[trigger] req[j]).key,
                    ) == PermissionLevel::Write by {
                        assert(grants(set, req[j]));
                    }
                }
            },
            None => {},
        }
    }
}

fn catalog_check(
    method: &str,
    path: &str,
    location: &str,
    m: &crate::model::CatalogMatch,
    permissions: &Option<PermissionSet>,
    satisfied: bool,
    missing: &Vec<RequiredPermission>,
) -> (c: Check)
    requires
        (satisfied, missing@) == evaluate_spec(permissions.deep_view(), m.required_permissions@),
    ensures
        c.deep_view() == catalog_check_spec(
            method@,
            path@,
            location@,
            m.deep_view(),
            permissions.deep_view(),
        ),
{
    let mut head = text::cat5(method, " ", path, " maps to ", m.endpoint_id.as_str());
    head.append(" (");
    head.append(m.classification.as_str());
    head.append("); ");
    let id = text::cat2("call.", m.endpoint_id.as_str());
    let c = if m.required_permissions.len() == 0 {
        head.append("no specific permission scopes are required");
        Check::pass(id, head)
    } else if satisfied {
        head.append("granted permissions satisfy required scopes");
        Check::pass(id, head)
    } else if permissions.is_none() {
        head.append("no permissions provided so requirement ");
        let req = format_required(m.required_permissions.as_slice());
        head.append(req.as_str());
        head.append(" cannot be evaluated");
        let mut id = id;
        id.append(".permissions_unknown");
        Check::warn(id, head)
    } else {
        head.append("missing ");
        let req = format_required(missing.as_slice());
        head.append(req.as_str());
        let mut id = id;
        id.append(".permissions_insufficient");
        Check::fail(id, head)
    };
    c.at(text::own(location))
}

/// Classifies one call. An ASCII method is uppercased letter by letter.
pub fn classify(options: ClassifyOptions) -> (r: CallReport)
    ensures
        r.deep_view() == classify_spec(options.deep_view()),
        is_ascii_seq(trim_seq(options.method@)) ==> r.deep_view() == classify_upper_spec(
            options.deep_view(),
            ascii_upper_seq(trim_seq(options.method@)),
        ),
{
    let trimmed = text::trim(options.method.as_str());
    let method = text::to_uppercase(trimmed.as_str());
    classify_upper(options, method)
}

/// Classifies one call whose method has already been trimmed and uppercased
/// into `method` (the method in `options` is not read).
pub fn classify_upper(options: ClassifyOptions, method: String) -> (r: CallReport)
    ensures
        r.deep_view() == classify_upper_spec(options.deep_view(), method@),
{
    let ghost o = options.deep_view();
    let ghost m = method@;
    let mut checks: Vec<Check> = Vec::new();
    let path = options.path;
    let location = match &options.origin {
        Some(o) => o.clone(),
        None => text::cat3(method.as_str(), " ", path.as_str()),
    };

    if catalog::is_graphql_path(path.as_str()) {
        checks.push(
            Check::fail(
                text::own("call.graphql_classification_not_implemented"),
                text::own(GRAPHQL_MESSAGE),
            ).at(location),
        );
        let r = CallReport {
            method,
            path,
            url: options.url,
            classification: Compatibility::Unsupported,
            catalog_match: None,
            unsupported_reason: Some(text::own(GRAPHQL_REASON)),
            permissions: options.permissions,
            satisfied: false,
            missing_permissions: Vec::new(),
            checks,
            origin: options.origin,
        };
        assert(r.deep_view() =~= classify_upper_spec(o, m));
        return r;
    }

    let Some(catalog_match) = catalog::lookup_upper(method.as_str(), path.as_str()) else {
        let mut message = text::cat5(
            "rest.endpoint_not_in_catalog: ",
            method.as_str(),
            " ",
            path.as_str(),
            " is not covered by the v1.0 CI-relevant catalog; ci-forge should classify as unsupported",
        );
        checks.push(
            Check::warn(text::own("call.endpoint_not_in_catalog"), message).at(location),
        );
        let r = CallReport {
            method,
            path,
            url: options.url,
            classification: Compatibility::Unsupported,
            catalog_match: None,
            unsupported_reason: Some(text::own(OFF_CATALOG_REASON)),
            permissions: options.permissions,
            satisfied: false,
            missing_permissions: Vec::new(),
            checks,
            origin: options.origin,
        };
        assert(r.deep_view() =~= classify_upper_spec(o, m));
        return r;
    };

    let permissions_set = options.permissions;
    let (satisfied, missing) = evaluate_permissions(
        permissions_set.as_ref(),
        catalog_match.required_permissions.as_slice(),
    );
    let check = catalog_check(
        method.as_str(),
        path.as_str(),
        location.as_str(),
        &catalog_match,
        &permissions_set,
        satisfied,
        &missing,
    );
    checks.push(check);
    let classification = catalog_match.classification;
    let r = CallReport {
        method,
        path,
        url: options.url,
        classification,
        catalog_match: Some(catalog_match),
        unsupported_reason: None,
        permissions: permissions_set,
        satisfied,
        missing_permissions: missing,
        checks,
        origin: options.origin,
    };
    assert(r.deep_view() =~= classify_upper_spec(o, m));
    r
}

/// The view of an optional set reference.
pub open spec fn opt_set_view(set: Option<&PermissionSet>) -> Option<PermissionSetView> {
    match set {
        Some(s) => Some(s.deep_view()),
        None => None,
    }
}

/// Whether a permission set (if any) covers `required`, and what it misses.
pub fn evaluate_permissions(set: Option<&PermissionSet>, required: &[RequiredPermission]) -> (r: (
    bool,
    Vec<RequiredPermission>,
))
    ensures
        (r.0, r.1@) == evaluate_spec(opt_set_view(set), required@),
{
    let Some(set) = set else {
        if required.len() == 0 {
            return (true, Vec::new());
        }
        let mut all: Vec<RequiredPermission> = Vec::new();
        let mut i: usize = 0;
        while i < required.len()
            invariant
                i <= required@.len(),
                all@ == required@.take(i as int),
            decreases required.len() - i,
        {
            all.push(required[i]);
            assert(required@.take(i + 1) =~= required@.take(i as int).push(required@[i as int]));
            i += 1;
        }
        assert(required@.take(i as int) =~= required@);
        return (false, all);
    };
    let missing = permissions::missing(set, required);
    (missing.len() == 0, missing)
}

/// The status counts of a report's checks.
pub fn summary(report: &CallReport) -> (s: ReceiptSummary)
    ensures
        summarizes(s, report.checks.deep_view()),
{
    ReceiptSummary::from_checks(report.checks.as_slice())
}

/// `key:level` for each requirement, joined by `, `; `(none)` when empty.
pub fn format_required(required: &[RequiredPermission]) -> (r: String)
    ensures
        r@ == format_required_spec(required@),
{
    if required.len() == 0 {
        return text::own("(none)");
    }
    let mut parts: Vec<String> = Vec::new();
    let mut i: usize = 0;
    while i < required.len()
        invariant
            i <= required@.len(),
            parts@.len() == i,
            forall|j: int|
                0 <= j < i ==> (#[trigger] parts@[j])@ == key_name(required@[j].key) + ":"@
                    + level_name(required@[j].level),
        decreases required.len() - i,
    {
        let req = required[i];
        parts.push(text::cat3(req.key.as_str(), ":", req.level.as_str()));
        i += 1;
    }
    let r = text::join(&parts, ", ");
    assert(parts.deep_view() =~= Seq::new(
        required@.len(),
        |i: int| key_name(required@[i].key) + ":"@ + level_name(required@[i].level),
    ));
    r
}

} // verus!
