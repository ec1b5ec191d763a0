//! Parsing, resolution and sufficiency checks of `permissions:` blocks.

use vstd::prelude::*;

use crate::model::{
    Check, CheckStatus, CheckView, PermissionKey, PermissionLevel, PermissionResolution,
    PermissionResolutionView, PermissionScope, PermissionSet, PermissionSetView, PermissionSource,
    RequiredPermission, all_keys, check_of, empty_set, entries_insert, key_name, level_rank,
    entries_sorted, entry_level, law_key_names, lemma_entries_insert, parse_key_seq, parse_level_seq,
    set_level,
};
use crate::text;
use crate::text::trim_seq;
use crate::value::{JsonValue, YamlValue};

verus! {

/// The shorthand that grants read on every key but `id-token`.
pub const ALL_LEVELS_READ: &'static str = "read-all";

/// The shorthand that grants write on every key but `id-token`.
pub const ALL_LEVELS_WRITE: &'static str = "write-all";

/// The implicit installation-token permission, accepted as `read` from JSON only.
pub const METADATA_KEY: &'static str = "metadata";

pub const DEFAULT_RESTRICTED_MESSAGE: &'static str = "no permissions block found at workflow or job level; assuming restricted defaults (contents: read). Set an explicit permissions block to pin behavior.";

pub const METADATA_NOT_CONFIGURABLE_MESSAGE: &'static str = "workflow `permissions:` syntax does not expose `metadata`; GitHub App installation tokens grant `metadata: read` implicitly. Remove this key.";

// ---------------------------------------------------------------------------
// Sufficiency
// ---------------------------------------------------------------------------

/// The set grants at least the level `r` requires for its key.
pub open spec fn grants(set: PermissionSetView, r: RequiredPermission) -> bool {
    level_rank(set_level(set, r.key)) >= level_rank(r.level)
}

/// The requirements that `set` does not grant, in their order.
pub open spec fn missing_seq(set: PermissionSetView, req: Seq<RequiredPermission>) -> Seq<
    RequiredPermission,
>
    decreases req.len(),
{
    if req.len() == 0 {
        Seq::empty()
    } else if grants(set, req.last()) {
        missing_seq(set, req.drop_last())
    } else {
        missing_seq(set, req.drop_last()).push(req.last())
    }
}

/// Nothing is missing exactly when every requirement is granted.
pub proof fn lemma_missing_empty(set: PermissionSetView, req: Seq<RequiredPermission>)
    ensures
        (missing_seq(set, req).len() == 0) <==> (forall|i: int|
            0 <= i < req.len() ==> grants(set, #[trigger] req[i])),
        forall|r: RequiredPermission| #[trigger]
            missing_seq(set, req).contains(r) ==> req.contains(r) && !grants(set, r),
    decreases req.len(),
{
    if req.len() > 0 {
        lemma_missing_empty(set, req.drop_last());
        let rest = missing_seq(set, req.drop_last());
        assert forall|r: RequiredPermission| #[trigger]
            missing_seq(set, req).contains(r) implies req.contains(r) && !grants(set, r) by {
            if rest.contains(r) {
                let k = choose|k: int| 0 <= k < req.drop_last().len() && req.drop_last()[k] == r;
                assert(req[k] == r);
            } else {
                assert(r == req.last());
                assert(req[req.len() - 1] == r);
            }
        }
        if !grants(set, req.last()) {
            assert(missing_seq(set, req).len() > 0);
        } else {
            assert forall|i: int| 0 <= i < req.len() && rest.len() == 0 implies grants(
                set,
                #[trigger] req[i],
            ) by {
                if i < req.len() - 1 {
                    assert(req[i] == req.drop_last()[i]);
                }
            }
            if rest.len() > 0 {
                let i = choose|i: int|
                    0 <= i < req.drop_last().len() && !grants(set, #[trigger] req.drop_last()[i]);
                assert(req[i] == req.drop_last()[i]);
            }
        }
    }
}

/// The requirements in `required` that `set` does not grant.
pub fn missing(set: &PermissionSet, required: &[RequiredPermission]) -> (r: Vec<
    RequiredPermission,
>)
    ensures
        r@ == missing_seq(set.deep_view(), required@),
{
    let mut out: Vec<RequiredPermission> = Vec::new();
    let mut i: usize = 0;
    while i < required.len()
        invariant
            i <= required@.len(),
            out@ == missing_seq(set.deep_view(), required@.take(i as int)),
        decreases required.len() - i,
    {
        let req = required[i];
        assert(required@.take(i + 1).drop_last() =~= required@.take(i as int));
        assert(required@.take(i + 1).last() == req);
        if !set.level(req.key).satisfies(req.level) {
            out.push(req);
        }
        i += 1;
    }
    assert(required@.take(i as int) =~= required@);
    out
}

/// Whether `set` grants every requirement in `required`.
pub fn satisfies(set: &PermissionSet, required: &[RequiredPermission]) -> (r: bool)
    ensures
        r == (missing_seq(set.deep_view(), required@).len() == 0),
        r == (forall|i: int| 0 <= i < required@.len() ==> grants(set.deep_view(), #[trigger] required@[i])),
{
    proof {
        lemma_missing_empty(set.deep_view(), required@);
    }
    missing(set, required).len() == 0
}

/// The recorded levels of `set`, key by key.
pub fn effective_map(set: &PermissionSet) -> (r: Vec<(String, PermissionLevel)>)
    ensures
        r.deep_view() == set.deep_view().entries,
{
    set.copy().entries
}

// ---------------------------------------------------------------------------
// Resolution
// ---------------------------------------------------------------------------

/// The restricted default: `contents: read` and nothing else.
pub open spec fn default_restricted_view() -> PermissionSetView {
    PermissionSetView {
        entries: seq![("contents"@, PermissionLevel::Read)],
        unknown_keys: Seq::empty(),
        shorthand: None,
    }
}

pub fn default_restricted() -> (s: PermissionSet)
    ensures
        s.deep_view() == default_restricted_view(),
{
    let mut set = PermissionSet::default();
    set.insert(text::own(PermissionKey::Contents.as_str()), PermissionLevel::Read);
    assert(set.deep_view().entries =~= seq![("contents"@, PermissionLevel::Read)]);
    set
}

/// The effective set and its source: the job block wins in job scope, then the
/// workflow block, then the restricted default.
pub open spec fn resolve_effective(
    workflow: Option<PermissionSetView>,
    job: Option<PermissionSetView>,
    scope: PermissionScope,
) -> (PermissionSetView, PermissionSource) {
    match (job, workflow, scope) {
        (Some(j), _, PermissionScope::Job) => (j, PermissionSource::JobBlock),
        (None, Some(w), PermissionScope::Job) => (w, PermissionSource::WorkflowBlock),
        (_, Some(w), PermissionScope::Workflow) => (w, PermissionSource::WorkflowBlock),
        _ => (default_restricted_view(), PermissionSource::DefaultRestricted),
    }
}

pub open spec fn default_restricted_check() -> CheckView {
    check_of(
        "permissions.default_restricted"@,
        CheckStatus::Warn,
        DEFAULT_RESTRICTED_MESSAGE@,
    )
}

/// The resolution of a workflow block and a job block in a scope.
pub open spec fn resolve_spec(
    workflow: Option<PermissionSetView>,
    job: Option<PermissionSetView>,
    scope: PermissionScope,
) -> PermissionResolutionView {
    let (effective, source) = resolve_effective(workflow, job, scope);
    PermissionResolutionView {
        scope,
        workflow_permissions: workflow,
        job_permissions: job,
        effective,
        source,
        checks: if source == PermissionSource::DefaultRestricted {
            seq![default_restricted_check()]
        } else {
            Seq::empty()
        },
    }
}

/// Resolving for a job takes the job's block when it has one; otherwise the
/// workflow's block applies; with neither, the restricted default (only
/// `contents: read`) applies and exactly one warning says so.
pub proof fn law_resolve_precedence(
    workflow: Option<PermissionSetView>,
    job: Option<PermissionSetView>,
    scope: PermissionScope,
)
    ensures
        scope == PermissionScope::Job && job is Some ==> resolve_spec(workflow, job, scope).effective
            == job->0 && resolve_spec(workflow, job, scope).source == PermissionSource::JobBlock
            && resolve_spec(workflow, job, scope).checks.len() == 0,
        !(scope == PermissionScope::Job && job is Some) && workflow is Some ==> resolve_spec(
            workflow,
            job,
            scope,
        ).effective == workflow->0 && resolve_spec(workflow, job, scope).source
            == PermissionSource::WorkflowBlock && resolve_spec(workflow, job, scope).checks.len()
            == 0,
        !(scope == PermissionScope::Job && job is Some) && workflow is None ==> resolve_spec(
            workflow,
            job,
            scope,
        ).effective == default_restricted_view() && resolve_spec(workflow, job, scope).source
            == PermissionSource::DefaultRestricted && resolve_spec(workflow, job, scope).checks
            == seq![default_restricted_check()],
{
}

pub fn resolve(
    workflow_permissions: Option<PermissionSet>,
    job_permissions: Option<PermissionSet>,
    scope: PermissionScope,
) -> (r: PermissionResolution)
    ensures
        r.deep_view() == resolve_spec(
            workflow_permissions.deep_view(),
            job_permissions.deep_view(),
            scope,
        ),
{
    let (effective, source) = match (&job_permissions, &workflow_permissions, scope) {
        (Some(job), _, PermissionScope::Job) => (job.copy(), PermissionSource::JobBlock),
        (None, Some(wf), PermissionScope::Job) => (wf.copy(), PermissionSource::WorkflowBlock),
        (_, Some(wf), PermissionScope::Workflow) => (wf.copy(), PermissionSource::WorkflowBlock),
        _ => (default_restricted(), PermissionSource::DefaultRestricted),
    };
    let mut checks: Vec<Check> = Vec::new();
    if source == PermissionSource::DefaultRestricted {
        checks.push(
            Check::warn(
                text::own("permissions.default_restricted"),
                text::own(DEFAULT_RESTRICTED_MESSAGE),
            ),
        );
    }
    let r = PermissionResolution {
        scope,
        workflow_permissions,
        job_permissions,
        effective,
        source,
        checks,
    };
    assert(r.deep_view().checks =~= resolve_spec(
        workflow_permissions.deep_view(),
        job_permissions.deep_view(),
        scope,
    ).checks);
    r
}

// ---------------------------------------------------------------------------
// Shorthands
// ---------------------------------------------------------------------------

/// `entries` after recording `level` for each key of `keys` but `id-token`.
pub open spec fn insert_keys(
    entries: Seq<(Seq<char>, PermissionLevel)>,
    keys: Seq<PermissionKey>,
    level: PermissionLevel,
) -> Seq<(Seq<char>, PermissionLevel)>
    decreases keys.len(),
{
    if keys.len() == 0 {
        entries
    } else if keys.last() == PermissionKey::IdToken {
        insert_keys(entries, keys.drop_last(), level)
    } else {
        entries_insert(insert_keys(entries, keys.drop_last(), level), key_name(keys.last()), level)
    }
}

/// The set a shorthand grants: `level` on every key but `id-token`, which
/// GitHub requires to be granted explicitly.
pub open spec fn shorthand_view(level: PermissionLevel, name: Seq<char>) -> PermissionSetView {
    PermissionSetView {
        entries: insert_keys(Seq::empty(), all_keys(), level),
        unknown_keys: Seq::empty(),
        shorthand: Some(name),
    }
}

/// The level a run of inserts records for `name`: `level` when one of the
/// keys (other than `id-token`) has that name, else what was there before.
proof fn lemma_insert_keys_level(
    entries: Seq<(Seq<char>, PermissionLevel)>,
    keys: Seq<PermissionKey>,
    level: PermissionLevel,
    name: Seq<char>,
)
    ensures
        entry_level(insert_keys(entries, keys, level), name) == if exists|j: int|
            0 <= j < keys.len() && keys[j] != PermissionKey::IdToken && #[trigger] key_name(keys[j])
                == name {
            Some(level)
        } else {
            entry_level(entries, name)
        },
    decreases keys.len(),
{
    if keys.len() > 0 {
        let rest = keys.drop_last();
        lemma_insert_keys_level(entries, rest, level, name);
        if keys.last() != PermissionKey::IdToken {
            lemma_entries_insert(
                insert_keys(entries, rest, level),
                key_name(keys.last()),
                level,
                name,
            );
        }
        if exists|j: int|
            0 <= j < keys.len() && keys[j] != PermissionKey::IdToken && #[trigger] key_name(keys[j])
                == name {
            let j = choose|j: int|
                0 <= j < keys.len() && keys[j] != PermissionKey::IdToken && #[trigger] key_name(
                    keys[j],
                ) == name;
            if j < rest.len() {
                assert(rest[j] == keys[j]);
            }
        } else {
            assert forall|j: int| 0 <= j < rest.len() implies !(rest[j] != PermissionKey::IdToken
                && #[trigger] key_name(rest[j]) == name) by {
                assert(rest[j] == keys[j]);
            }
        }
    }
}

/// A `read-all` / `write-all` shorthand grants its level on every key but
/// `id-token`, which it never grants.
pub proof fn law_shorthand_levels(level: PermissionLevel, name: Seq<char>, k: PermissionKey)
    ensures
        set_level(shorthand_view(level, name), k) == if k == PermissionKey::IdToken {
            PermissionLevel::NoAccess
        } else {
            level
        },
{
    let all = all_keys();
    lemma_insert_keys_level(Seq::empty(), all, level, key_name(k));
    assert(entry_level(Seq::<(Seq<char>, PermissionLevel)>::empty(), key_name(k)) is None);
    assert forall|j: int| 0 <= j < all.len() && #[trigger] key_name(all[j]) == key_name(k) implies all[j]
        == k by {
        law_key_names(all[j], k);
    }
    if k != PermissionKey::IdToken {
        let j: int = match k {
            PermissionKey::Actions => 0,
            PermissionKey::Attestations => 1,
            PermissionKey::Checks => 2,
            PermissionKey::Contents => 3,
            PermissionKey::Deployments => 4,
            PermissionKey::Discussions => 5,
            PermissionKey::IdToken => 6,
            PermissionKey::Issues => 7,
            PermissionKey::Models => 8,
            PermissionKey::Packages => 9,
            PermissionKey::Pages => 10,
            PermissionKey::PullRequests => 11,
            PermissionKey::RepositoryProjects => 12,
            PermissionKey::SecurityEvents => 13,
            PermissionKey::Statuses => 14,
        };
        assert(all[j] == k);
        assert(key_name(all[j]) == key_name(k));
    }
}

fn shorthand_set(level: PermissionLevel, name: &str) -> (s: PermissionSet)
    ensures
        s.deep_view() == shorthand_view(level, name@),
{
    let mut set = PermissionSet::default();
    let keys = PermissionKey::all();
    let mut i: usize = 0;
    while i < keys.len()
        invariant
            keys@ == all_keys(),
            i <= keys@.len(),
            set.deep_view() == (PermissionSetView {
                entries: insert_keys(Seq::empty(), all_keys().take(i as int), level),
                unknown_keys: Seq::empty(),
                shorthand: None,
            }),
        decreases keys.len() - i,
    {
        let key = keys[i];
        assert(all_keys().take(i + 1).drop_last() =~= all_keys().take(i as int));
        assert(all_keys().take(i + 1).last() == key);
        if key != PermissionKey::IdToken {
            set.insert(text::own(key.as_str()), level);
        }
        i += 1;
    }
    assert(all_keys().take(15) =~= all_keys());
    set.shorthand = Some(text::own(name));
    set
}

// ---------------------------------------------------------------------------
// Workflow YAML blocks
// ---------------------------------------------------------------------------

/// The text of a scalar: strings as they are, booleans and numbers printed.
pub open spec fn scalar_text_spec(v: YamlValue) -> Option<Seq<char>> {
    match v {
        YamlValue::Text(t) => Some(t@),
        YamlValue::Bool(b) => Some(
            if b {
                "true"@
            } else {
                "false"@
            },
        ),
        YamlValue::Number(n) => Some(n@),
        _ => None,
    }
}

fn scalar_text(value: &YamlValue) -> (r: Option<String>)
    ensures
        r.deep_view() == scalar_text_spec(*value),
{
    match value {
        YamlValue::Text(text) => Some(text.clone()),
        YamlValue::Bool(b) => Some(
            if *b {
                text::own("true")
            } else {
                text::own("false")
            },
        ),
        YamlValue::Number(n) => Some(n.clone()),
        _ => None,
    }
}

/// One `key: level` entry of a YAML block applied to the set and checks so far.
pub open spec fn yaml_entry_step(
    acc: (PermissionSetView, Seq<CheckView>),
    key: YamlValue,
    level: YamlValue,
) -> (PermissionSetView, Seq<CheckView>) {
    let (set, checks) = acc;
    match key {
        YamlValue::Text(k) => {
            let k = k@;
            match scalar_text_spec(level) {
                None => (
                    set,
                    checks.push(
                        check_of(
                            "permissions.non_string_level"@,
                            CheckStatus::Fail,
                            "permission '"@ + k + "' must map to a string level"@,
                        ),
                    ),
                ),
                Some(lt) => match parse_level_seq(lt) {
                    None => (
                        set,
                        checks.push(
                            check_of(
                                "permissions.unknown_level"@,
                                CheckStatus::Fail,
                                "permission '"@ + k + "': level '"@ + lt
                                    + "' is not one of none|read|write"@,
                            ),
                        ),
                    ),
                    Some(l) => if k == METADATA_KEY@ {
                        (
                            PermissionSetView {
                                entries: entries_insert(set.entries, k, l),
                                unknown_keys: set.unknown_keys.push(k),
                                ..set
                            },
                            checks.push(
                                check_of(
                                    "permissions.metadata_not_configurable"@,
                                    CheckStatus::Fail,
                                    METADATA_NOT_CONFIGURABLE_MESSAGE@,
                                ),
                            ),
                        )
                    } else if parse_key_seq(k) is None {
                        (
                            PermissionSetView {
                                entries: entries_insert(set.entries, k, l),
                                unknown_keys: set.unknown_keys.push(k),
                                ..set
                            },
                            checks.push(
                                check_of(
                                    "permissions.unknown_key"@,
                                    CheckStatus::Warn,
                                    "permission key '"@ + k
                                        + "' is not a recognized GitHub permission"@,
                                ),
                            ),
                        )
                    } else {
                        (PermissionSetView { entries: entries_insert(set.entries, k, l), ..set }, checks)
                    },
                },
            }
        },
        _ => (
            set,
            checks.push(
                check_of(
                    "permissions.non_string_key"@,
                    CheckStatus::Fail,
                    "permission keys must be strings"@,
                ),
            ),
        ),
    }
}

/// All entries of a YAML mapping applied in order to the empty set.
pub open spec fn yaml_mapping_fold(entries: Seq<(YamlValue, YamlValue)>) -> (
    PermissionSetView,
    Seq<CheckView>,
)
    decreases entries.len(),
{
    if entries.len() == 0 {
        (empty_set(), Seq::empty())
    } else {
        yaml_entry_step(
            yaml_mapping_fold(entries.drop_last()),
            entries.last().0,
            entries.last().1,
        )
    }
}

/// The set and checks that a workflow or job `permissions:` value yields.
pub open spec fn yaml_block_spec(value: Option<YamlValue>) -> (
    Option<PermissionSetView>,
    Seq<CheckView>,
) {
    match value {
        None => (None, Seq::empty()),
        Some(v) => match v {
            YamlValue::Text(t) => {
                let trimmed = trim_seq(t@);
                if trimmed == ALL_LEVELS_READ@ {
                    (Some(shorthand_view(PermissionLevel::Read, ALL_LEVELS_READ@)), Seq::empty())
                } else if trimmed == ALL_LEVELS_WRITE@ {
                    (Some(shorthand_view(PermissionLevel::Write, ALL_LEVELS_WRITE@)), Seq::empty())
                } else if trimmed.len() == 0 {
                    (
                        Some(empty_set()),
                        seq![
                            check_of(
                                "permissions.empty_scalar"@,
                                CheckStatus::Fail,
                                "permissions: cannot be an empty scalar"@,
                            ),
                        ],
                    )
                } else {
                    (
                        Some(empty_set()),
                        seq![
                            check_of(
                                "permissions.unknown_scalar"@,
                                CheckStatus::Fail,
                                "permissions scalar must be 'read-all' or 'write-all', got '"@
                                    + trimmed + "'"@,
                            ),
                        ],
                    )
                }
            },
            YamlValue::Mapping(m) => {
                let (set, checks) = yaml_mapping_fold(m@);
                (Some(set), checks)
            },
            _ => (
                Some(empty_set()),
                seq![
                    check_of(
                        "permissions.invalid_shape"@,
                        CheckStatus::Fail,
                        "permissions must be a scalar (read-all|write-all) or a mapping"@,
                    ),
                ],
            ),
        },
    }
}

proof fn lemma_insert_keys_sorted(
    entries: Seq<(Seq<char>, PermissionLevel)>,
    keys: Seq<PermissionKey>,
    level: PermissionLevel,
)
    requires
        entries_sorted(entries),
    ensures
        entries_sorted(insert_keys(entries, keys, level)),
    decreases keys.len(),
{
    if keys.len() > 0 {
        lemma_insert_keys_sorted(entries, keys.drop_last(), level);
        if keys.last() != PermissionKey::IdToken {
            lemma_entries_insert(
                insert_keys(entries, keys.drop_last(), level),
                key_name(keys.last()),
                level,
                key_name(keys.last()),
            );
        }
    }
}

proof fn lemma_yaml_fold_sorted(entries: Seq<(YamlValue, YamlValue)>)
    ensures
        entries_sorted(yaml_mapping_fold(entries).0.entries),
    decreases entries.len(),
{
    if entries.len() > 0 {
        let prev = yaml_mapping_fold(entries.drop_last());
        lemma_yaml_fold_sorted(entries.drop_last());
        match entries.last().0 {
            YamlValue::Text(k) => match scalar_text_spec(entries.last().1) {
                Some(lt) => match parse_level_seq(lt) {
                    Some(l) => {
                        lemma_entries_insert(prev.0.entries, k@, l, k@);
                    },
                    None => {},
                },
                None => {},
            },
            _ => {},
        }
    }
}

proof fn lemma_json_fold_sorted(entries: Seq<(String, JsonValue)>)
    ensures
        json_object_fold(entries) matches Ok(s) ==> entries_sorted(s.entries),
    decreases entries.len(),
{
    if entries.len() > 0 {
        let prev = json_object_fold(entries.drop_last());
        lemma_json_fold_sorted(entries.drop_last());
        match (prev, entries.last().1) {
            (Ok(set), JsonValue::Text(lt)) => match parse_level_seq(lt@) {
                Some(l) => {
                    lemma_entries_insert(set.entries, entries.last().0@, l, entries.last().0@);
                },
                None => {},
            },
            _ => {},
        }
    }
}

/// Every permission set that parsing or resolution yields keeps its entries in
/// key order, each key once, as a map ordered by key holds them.
pub proof fn law_sets_in_key_order(
    block: Option<YamlValue>,
    json: JsonValue,
    workflow: Option<PermissionSetView>,
    job: Option<PermissionSetView>,
    scope: PermissionScope,
)
    ensures
        yaml_block_spec(block).0 matches Some(s) ==> entries_sorted(s.entries),
        json_permissions_spec(json) matches Ok(s) ==> entries_sorted(s.entries),
        (workflow matches Some(w) ==> entries_sorted(w.entries)) && (job matches Some(j)
            ==> entries_sorted(j.entries)) ==> entries_sorted(
            resolve_spec(workflow, job, scope).effective.entries,
        ),
{
    let e = Seq::<(Seq<char>, PermissionLevel)>::empty();
    assert(entries_sorted(e));
    lemma_insert_keys_sorted(e, all_keys(), PermissionLevel::Read);
    lemma_insert_keys_sorted(e, all_keys(), PermissionLevel::Write);
    match block {
        Some(YamlValue::Mapping(m)) => {
            lemma_yaml_fold_sorted(m@);
        },
        _ => {},
    }
    match json {
        JsonValue::Object(entries) => {
            lemma_json_fold_sorted(entries@);
        },
        _ => {},
    }
    reveal_strlit("contents");
    assert(entries_sorted(default_restricted_view().entries));
}

/// A `permissions:` block that is the scalar `write-all` (around any
/// whitespace) grants `write` on every key but `id-token`, which stays
/// ungranted, and `read-all` grants `read` the same way; as JSON values the
/// strings `"write-all"` and `"read-all"` grant the same. Either shorthand
/// raises no check and is recorded by its name.
pub proof fn law_block_shorthands(block: YamlValue, json: JsonValue, k: PermissionKey)
    ensures
        (block matches YamlValue::Text(t) && trim_seq(t@) == "write-all"@) ==> (yaml_block_spec(
            Some(block),
        ).0 matches Some(s) && set_level(s, k) == (if k == PermissionKey::IdToken {
            PermissionLevel::NoAccess
        } else {
            PermissionLevel::Write
        }) && s.shorthand == Some("write-all"@) && yaml_block_spec(Some(block)).1.len() == 0),
        (block matches YamlValue::Text(t) && trim_seq(t@) == "read-all"@) ==> (yaml_block_spec(
            Some(block),
        ).0 matches Some(s) && set_level(s, k) == (if k == PermissionKey::IdToken {
            PermissionLevel::NoAccess
        } else {
            PermissionLevel::Read
        }) && s.shorthand == Some("read-all"@) && yaml_block_spec(Some(block)).1.len() == 0),
        (json matches JsonValue::Text(t) && t@ == "write-all"@) ==> (json_permissions_spec(
            json,
        ) matches Ok(s) && set_level(s, k) == (if k == PermissionKey::IdToken {
            PermissionLevel::NoAccess
        } else {
            PermissionLevel::Write
        })),
        (json matches JsonValue::Text(t) && t@ == "read-all"@) ==> (json_permissions_spec(
            json,
        ) matches Ok(s) && set_level(s, k) == (if k == PermissionKey::IdToken {
            PermissionLevel::NoAccess
        } else {
            PermissionLevel::Read
        })),
{
    reveal_strlit("write-all");
    reveal_strlit("read-all");
    assert("write-all"@[0] != "read-all"@[0]);
    law_shorthand_levels(PermissionLevel::Write, ALL_LEVELS_WRITE@, k);
    law_shorthand_levels(PermissionLevel::Read, ALL_LEVELS_READ@, k);
}

/// The level that the last entry of a YAML mapping naming `key` with a
/// readable level gives, if some entry does.
pub open spec fn yaml_last_level(entries: Seq<(YamlValue, YamlValue)>, key: Seq<char>) -> Option<
    PermissionLevel,
>
    decreases entries.len(),
{
    if entries.len() == 0 {
        None
    } else {
        let named = match entries.last().0 {
            YamlValue::Text(k) => k@ == key,
            _ => false,
        };
        let level = match scalar_text_spec(entries.last().1) {
            Some(lt) => parse_level_seq(lt),
            None => None,
        };
        if named && level is Some {
            level
        } else {
            yaml_last_level(entries.drop_last(), key)
        }
    }
}

/// The level that the last entry of a JSON object naming `key` gives, if any.
pub open spec fn json_last_level(entries: Seq<(String, JsonValue)>, key: Seq<char>) -> Option<
    PermissionLevel,
>
    decreases entries.len(),
{
    if entries.len() == 0 {
        None
    } else if entries.last().0@ == key {
        match entries.last().1 {
            JsonValue::Text(lt) => parse_level_seq(lt@),
            _ => None,
        }
    } else {
        json_last_level(entries.drop_last(), key)
    }
}

/// In a `permissions:` mapping each key gets the level that its last entry
/// with a readable level (`none`, `read` or `write`) gives, whether or not the
/// key is a known one; a key no such entry names gets nothing. A JSON object
/// that parses gives each key the level of its last entry.
pub proof fn law_block_entries(
    entries: Seq<(YamlValue, YamlValue)>,
    object: Seq<(String, JsonValue)>,
    key: Seq<char>,
)
    ensures
        entry_level(yaml_mapping_fold(entries).0.entries, key) == yaml_last_level(entries, key),
        json_object_fold(object) is Ok ==> entry_level(json_object_fold(object)->Ok_0.entries, key)
            == json_last_level(object, key),
    decreases entries.len() + object.len(),
{
    if entries.len() > 0 {
        law_block_entries(entries.drop_last(), object, key);
        let prev = yaml_mapping_fold(entries.drop_last()).0;
        match entries.last().0 {
            YamlValue::Text(k) => match scalar_text_spec(entries.last().1) {
                Some(lt) => match parse_level_seq(lt) {
                    Some(l) => {
                        lemma_entries_insert(prev.entries, k@, l, key);
                    },
                    None => {},
                },
                None => {},
            },
            _ => {},
        }
    }
    if object.len() > 0 {
        law_block_entries(entries, object.drop_last(), key);
        let prev = json_object_fold(object.drop_last());
        match (prev, object.last().1) {
            (Ok(set), JsonValue::Text(lt)) => match parse_level_seq(lt@) {
                Some(l) => {
                    lemma_entries_insert(set.entries, object.last().0@, l, key);
                },
                None => {},
            },
            _ => {},
        }
    }
}

fn yaml_entry(set: &mut PermissionSet, checks: &mut Vec<Check>, key: &YamlValue, level: &YamlValue)
    ensures
        (final(set).deep_view(), final(checks).deep_view()) == yaml_entry_step(
            (old(set).deep_view(), old(checks).deep_view()),
            *key,
            *level,
        ),
{
    let ghost old_checks = checks.deep_view();
    let YamlValue::Text(key) = key else {
        checks.push(
            Check::fail(
                text::own("permissions.non_string_key"),
                text::own("permission keys must be strings"),
            ),
        );
        assert(checks.deep_view() =~= old_checks.push(
            check_of(
                "permissions.non_string_key"@,
                CheckStatus::Fail,
                "permission keys must be strings"@,
            ),
        ));
        return;
    };
    let Some(level_text) = scalar_text(level) else {
        checks.push(
            Check::fail(
                text::own("permissions.non_string_level"),
                text::cat3("permission '", key.as_str(), "' must map to a string level"),
            ),
        );
        assert(checks.deep_view() =~= old_checks.push(
            check_of(
                "permissions.non_string_level"@,
                CheckStatus::Fail,
                "permission '"@ + key@ + "' must map to a string level"@,
            ),
        ));
        return;
    };
    let Some(parsed) = PermissionLevel::parse(level_text.as_str()) else {
        checks.push(
            Check::fail(
                text::own("permissions.unknown_level"),
                text::cat5(
                    "permission '",
                    key.as_str(),
                    "': level '",
                    level_text.as_str(),
                    "' is not one of none|read|write",
                ),
            ),
        );
        assert(checks.deep_view() =~= old_checks.push(
            check_of(
                "permissions.unknown_level"@,
                CheckStatus::Fail,
                "permission '"@ + key@ + "': level '"@ + level_text@
                    + "' is not one of none|read|write"@,
            ),
        ));
        return;
    };
    if text::str_eq(key.as_str(), METADATA_KEY) {
        set.unknown_keys.push(key.clone());
        checks.push(
            Check::fail(
                text::own("permissions.metadata_not_configurable"),
                text::own(METADATA_NOT_CONFIGURABLE_MESSAGE),
            ),
        );
        set.insert(key.clone(), parsed);
        assert(checks.deep_view() =~= old_checks.push(
            check_of(
                "permissions.metadata_not_configurable"@,
                CheckStatus::Fail,
                METADATA_NOT_CONFIGURABLE_MESSAGE@,
            ),
        ));
        assert(set.deep_view().unknown_keys =~= old(set).deep_view().unknown_keys.push(key@));
        return;
    }
    if PermissionKey::parse(key.as_str()).is_none() {
        set.unknown_keys.push(key.clone());
        checks.push(
            Check::warn(
                text::own("permissions.unknown_key"),
                text::cat3("permission key '", key.as_str(), "' is not a recognized GitHub permission"),
            ),
        );
        assert(checks.deep_view() =~= old_checks.push(
            check_of(
                "permissions.unknown_key"@,
                CheckStatus::Warn,
                "permission key '"@ + key@ + "' is not a recognized GitHub permission"@,
            ),
        ));
        assert(set.deep_view().unknown_keys =~= old(set).deep_view().unknown_keys.push(key@));
    }
    set.insert(key.clone(), parsed);
}

/// The value behind an optional reference.
pub open spec fn opt_value(v: Option<&YamlValue>) -> Option<YamlValue> {
    match v {
        Some(x) => Some(*x),
        None => None,
    }
}

/// Parses a workflow or job `permissions:` value into a set, with checks for
/// what it could not accept.
pub fn parse_yaml_block(value: Option<&YamlValue>) -> (r: (Option<PermissionSet>, Vec<Check>))
    ensures
        (r.0.deep_view(), r.1.deep_view()) == yaml_block_spec(opt_value(value)),
{
    let Some(value) = value else {
        let checks: Vec<Check> = Vec::new();
        assert(checks.deep_view() =~= Seq::<CheckView>::empty());
        return (None, checks);
    };
    let mut checks: Vec<Check> = Vec::new();
    match value {
        YamlValue::Text(t) => {
            let trimmed = text::trim(t.as_str());
            if text::str_eq(trimmed.as_str(), ALL_LEVELS_READ) {
                let set = shorthand_set(PermissionLevel::Read, ALL_LEVELS_READ);
                assert(checks.deep_view() =~= Seq::<CheckView>::empty());
                (Some(set), checks)
            } else if text::str_eq(trimmed.as_str(), ALL_LEVELS_WRITE) {
                let set = shorthand_set(PermissionLevel::Write, ALL_LEVELS_WRITE);
                assert(checks.deep_view() =~= Seq::<CheckView>::empty());
                (Some(set), checks)
            } else if text::chars_of(trimmed.as_str()).len() == 0 {
                checks.push(
                    Check::fail(
                        text::own("permissions.empty_scalar"),
                        text::own("permissions: cannot be an empty scalar"),
                    ),
                );
                assert(checks.deep_view() =~= yaml_block_spec(Some(*value)).1);
                (Some(PermissionSet::default()), checks)
            } else {
                checks.push(
                    Check::fail(
                        text::own("permissions.unknown_scalar"),
                        text::cat3(
                            "permissions scalar must be 'read-all' or 'write-all', got '",
                            trimmed.as_str(),
                            "'",
                        ),
                    ),
                );
                assert(checks.deep_view() =~= yaml_block_spec(Some(*value)).1);
                (Some(PermissionSet::default()), checks)
            }
        },
        YamlValue::Mapping(map) => {
            let mut set = PermissionSet::default();
            let mut i: usize = 0;
            assert(map@.take(0) =~= Seq::<(YamlValue, YamlValue)>::empty());
            assert(checks.deep_view() =~= Seq::<CheckView>::empty());
            while i < map.len()
                invariant
                    i <= map@.len(),
                    (set.deep_view(), checks.deep_view()) == yaml_mapping_fold(
                        map@.take(i as int),
                    ),
                decreases map.len() - i,
            {
                assert(map@.take(i + 1).drop_last() =~= map@.take(i as int));
                assert(map@.take(i + 1).last() == map@[i as int]);
                let (key_value, level_value) = (&map[i].0, &map[i].1);
                yaml_entry(&mut set, &mut checks, key_value, level_value);
                i += 1;
            }
            assert(map@.take(i as int) =~= map@);
            (Some(set), checks)
        },
        _ => {
            checks.push(
                Check::fail(
                    text::own("permissions.invalid_shape"),
                    text::own("permissions must be a scalar (read-all|write-all) or a mapping"),
                ),
            );
            assert(checks.deep_view() =~= yaml_block_spec(Some(*value)).1);
            (Some(PermissionSet::default()), checks)
        },
    }
}

// ---------------------------------------------------------------------------
// JSON permission sets
// ---------------------------------------------------------------------------

/// Why a JSON permission set was refused.
#[derive(Debug)]
pub enum PermissionsError {
    /// A string other than `read-all` or `write-all`.
    UnknownShorthand(String),
    /// A key whose level is not a string.
    NonStringLevel(String),
    /// A key whose level is not one of none, read and write.
    UnknownLevel(String, String),
    /// `metadata: write`.
    MetadataWrite,
    /// `metadata: none`.
    MetadataNone,
    /// Neither null, a string nor an object.
    InvalidShape,
}

#[verifier::ext_equal]
pub enum PermissionsErrorView {
    UnknownShorthand(Seq<char>),
    NonStringLevel(Seq<char>),
    UnknownLevel(Seq<char>, Seq<char>),
    MetadataWrite,
    MetadataNone,
    InvalidShape,
}

impl DeepView for PermissionsError {
    type V = PermissionsErrorView;

    open spec fn deep_view(&self) -> PermissionsErrorView {
        match self {
            PermissionsError::UnknownShorthand(s) => PermissionsErrorView::UnknownShorthand(s@),
            PermissionsError::NonStringLevel(k) => PermissionsErrorView::NonStringLevel(k@),
            PermissionsError::UnknownLevel(k, l) => PermissionsErrorView::UnknownLevel(k@, l@),
            PermissionsError::MetadataWrite => PermissionsErrorView::MetadataWrite,
            PermissionsError::MetadataNone => PermissionsErrorView::MetadataNone,
            PermissionsError::InvalidShape => PermissionsErrorView::InvalidShape,
        }
    }
}

pub const METADATA_WRITE_MESSAGE: &'static str = "permission 'metadata': installation tokens grant `metadata: read` implicitly; `metadata: write` is not a valid GitHub installation permission";

pub const METADATA_NONE_MESSAGE: &'static str = "permission 'metadata': installation tokens always retain implicit `metadata: read`; `metadata: none` cannot be granted";

/// The text that describes a refusal.
pub open spec fn permissions_error_message(e: PermissionsErrorView) -> Seq<char> {
    match e {
        PermissionsErrorView::UnknownShorthand(s) => "permissions scalar must be 'read-all' or 'write-all', got '"@
            + s + "'"@,
        PermissionsErrorView::NonStringLevel(k) => "permission '"@ + k
            + "' must map to a string level"@,
        PermissionsErrorView::UnknownLevel(k, l) => "permission '"@ + k + "': level '"@ + l
            + "' is not one of none|read|write"@,
        PermissionsErrorView::MetadataWrite => METADATA_WRITE_MESSAGE@,
        PermissionsErrorView::MetadataNone => METADATA_NONE_MESSAGE@,
        PermissionsErrorView::InvalidShape => "permissions must be null, a string shorthand, or an object mapping"@,
    }
}

impl PermissionsError {
    /// The text that describes this refusal.
    pub fn message(&self) -> (r: String)
        ensures
            r@ == permissions_error_message(self.deep_view()),
    {
        match self {
            PermissionsError::UnknownShorthand(s) => text::cat3(
                "permissions scalar must be 'read-all' or 'write-all', got '",
                s.as_str(),
                "'",
            ),
            PermissionsError::NonStringLevel(k) => text::cat3(
                "permission '",
                k.as_str(),
                "' must map to a string level",
            ),
            PermissionsError::UnknownLevel(k, l) => text::cat5(
                "permission '",
                k.as_str(),
                "': level '",
                l.as_str(),
                "' is not one of none|read|write",
            ),
            PermissionsError::MetadataWrite => text::own(METADATA_WRITE_MESSAGE),
            PermissionsError::MetadataNone => text::own(METADATA_NONE_MESSAGE),
            PermissionsError::InvalidShape => text::own(
                "permissions must be null, a string shorthand, or an object mapping",
            ),
        }
    }
}

/// One `"key": "level"` entry of a JSON object applied to the set so far.
pub open spec fn json_entry_step(
    acc: Result<PermissionSetView, PermissionsErrorView>,
    key: Seq<char>,
    level: JsonValue,
) -> Result<PermissionSetView, PermissionsErrorView> {
    match acc {
        Err(e) => Err(e),
        Ok(set) => match level {
            JsonValue::Text(lt) => match parse_level_seq(lt@) {
                None => Err(PermissionsErrorView::UnknownLevel(key, lt@)),
                Some(l) => if key == METADATA_KEY@ {
                    match l {
                        PermissionLevel::Read => Ok(
                            PermissionSetView { entries: entries_insert(set.entries, key, l), ..set },
                        ),
                        PermissionLevel::Write => Err(PermissionsErrorView::MetadataWrite),
                        PermissionLevel::NoAccess => Err(PermissionsErrorView::MetadataNone),
                    }
                } else if parse_key_seq(key) is None {
                    Ok(
                        PermissionSetView {
                            entries: entries_insert(set.entries, key, l),
                            unknown_keys: set.unknown_keys.push(key),
                            ..set
                        },
                    )
                } else {
                    Ok(PermissionSetView { entries: entries_insert(set.entries, key, l), ..set })
                },
            },
            _ => Err(PermissionsErrorView::NonStringLevel(key)),
        },
    }
}

/// All entries of a JSON object applied in order to the empty set.
pub open spec fn json_object_fold(entries: Seq<(String, JsonValue)>) -> Result<
    PermissionSetView,
    PermissionsErrorView,
>
    decreases entries.len(),
{
    if entries.len() == 0 {
        Ok(empty_set())
    } else {
        json_entry_step(
            json_object_fold(entries.drop_last()),
            entries.last().0@,
            entries.last().1,
        )
    }
}

/// The set a JSON permissions value grants, or why it is refused.
pub open spec fn json_permissions_spec(value: JsonValue) -> Result<
    PermissionSetView,
    PermissionsErrorView,
> {
    match value {
        JsonValue::Null => Ok(empty_set()),
        JsonValue::Text(t) => if t@ == ALL_LEVELS_READ@ {
            Ok(shorthand_view(PermissionLevel::Read, ALL_LEVELS_READ@))
        } else if t@ == ALL_LEVELS_WRITE@ {
            Ok(shorthand_view(PermissionLevel::Write, ALL_LEVELS_WRITE@))
        } else {
            Err(PermissionsErrorView::UnknownShorthand(t@))
        },
        JsonValue::Object(entries) => json_object_fold(entries@),
        _ => Err(PermissionsErrorView::InvalidShape),
    }
}

/// The view of a parse result.
pub open spec fn result_view(r: Result<PermissionSet, PermissionsError>) -> Result<
    PermissionSetView,
    PermissionsErrorView,
> {
    match r {
        Ok(s) => Ok(s.deep_view()),
        Err(e) => Err(e.deep_view()),
    }
}

fn json_entry(set: &mut PermissionSet, key: &String, level: &JsonValue) -> (r: Result<
    (),
    PermissionsError,
>)
    ensures
        match json_entry_step(Ok(old(set).deep_view()), key@, *level) {
            Ok(v) => r is Ok && final(set).deep_view() == v,
            Err(e) => r matches Err(x) && x.deep_view() == e,
        },
{
    let JsonValue::Text(level_text) = level else {
        return Err(PermissionsError::NonStringLevel(key.clone()));
    };
    let Some(parsed) = PermissionLevel::parse(level_text.as_str()) else {
        return Err(PermissionsError::UnknownLevel(key.clone(), level_text.clone()));
    };
    if text::str_eq(key.as_str(), METADATA_KEY) {
        match parsed {
            PermissionLevel::Read => {
                set.insert(key.clone(), parsed);
                return Ok(());
            },
            PermissionLevel::Write => {
                return Err(PermissionsError::MetadataWrite);
            },
            PermissionLevel::NoAccess => {
                return Err(PermissionsError::MetadataNone);
            },
        }
    }
    if PermissionKey::parse(key.as_str()).is_none() {
        set.unknown_keys.push(key.clone());
        assert(set.deep_view().unknown_keys =~= old(set).deep_view().unknown_keys.push(key@));
    }
    set.insert(key.clone(), parsed);
    Ok(())
}

/// Parses a permission set given as JSON: `null`, a shorthand string, or an
/// object of key to level.
pub fn parse_json_permissions(value: &JsonValue) -> (r: Result<PermissionSet, PermissionsError>)
    ensures
        result_view(r) == json_permissions_spec(*value),
{
    match value {
        JsonValue::Null => Ok(PermissionSet::default()),
        JsonValue::Text(t) => {
            if text::str_eq(t.as_str(), ALL_LEVELS_READ) {
                Ok(shorthand_set(PermissionLevel::Read, ALL_LEVELS_READ))
            } else if text::str_eq(t.as_str(), ALL_LEVELS_WRITE) {
                Ok(shorthand_set(PermissionLevel::Write, ALL_LEVELS_WRITE))
            } else {
                Err(PermissionsError::UnknownShorthand(t.clone()))
            }
        },
        JsonValue::Object(map) => {
            let mut set = PermissionSet::default();
            let mut i: usize = 0;
            assert(map@.take(0) =~= Seq::<(String, JsonValue)>::empty());
            while i < map.len()
                invariant
                    i <= map@.len(),
                    json_permissions_spec(*value) == json_object_fold(map@),
                    json_object_fold(map@.take(i as int)) == Ok::<
                        PermissionSetView,
                        PermissionsErrorView,
                    >(set.deep_view()),
                decreases map.len() - i,
            {
                assert(map@.take(i + 1).drop_last() =~= map@.take(i as int));
                assert(map@.take(i + 1).last() == map@[i as int]);
                let ghost before = set.deep_view();
                let res = json_entry(&mut set, &map[i].0, &map[i].1);
                match res {
                    Ok(()) => {},
                    Err(e) => {
                        proof {
                            assert(json_object_fold(map@.take(i + 1)) == json_entry_step(
                                Ok(before),
                                map@[i as int].0@,
                                map@[i as int].1,
                            ));
                            assert(json_object_fold(map@.take(i + 1)) == Err::<
                                PermissionSetView,
                                PermissionsErrorView,
                            >(e.deep_view()));
                            lemma_json_fold_err(map@, i as int + 1);
                        }
                        return Err(e);
                    },
                }
                i += 1;
            }
            assert(map@.take(i as int) =~= map@);
            Ok(set)
        },
        _ => Err(PermissionsError::InvalidShape),
    }
}

/// Once a prefix is refused, every longer prefix is refused the same way.
proof fn lemma_json_fold_err(entries: Seq<(String, JsonValue)>, k: int)
    requires
        0 <= k <= entries.len(),
        json_object_fold(entries.take(k)) is Err,
    ensures
        json_object_fold(entries) == json_object_fold(entries.take(k)),
    decreases entries.len() - k,
{
    if k < entries.len() {
        assert(entries.take(k + 1).drop_last() =~= entries.take(k));
        lemma_json_fold_err(entries, k + 1);
    } else {
        assert(entries.take(k) =~= entries);
    }
}

} // verus!
