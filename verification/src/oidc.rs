//! Stub-local OIDC tokens: deterministic HS256 JWTs for offline CI assertions.

use base64::Engine;
use base64::engine::general_purpose::URL_SAFE_NO_PAD;
use hmac::{Hmac, Mac};
use sha2::Sha256;
use vstd::prelude::*;
use vstd::utf8::encode_utf8;

use crate::json::{
    insert_entry, keys_ascending, law_object_insert, object_get, object_insert, object_text,
    write_object_entries,
};
use crate::model::{
    Check, CheckStatus, CheckView, Compatibility, LATEST_SECOND, OidcReport, OidcReportView,
    PermissionKey, PermissionLevel, PermissionSet, PermissionSetView, Timestamp, check_of,
    level_rank, now_utc, set_level, timestamp_valid,
};
use crate::text;
use crate::text::{find_char, signed_decimal, split_once_seq, split_seq, trim_seq};
use crate::value::{JsonValue, JsonView, json_view, object_view};

verus! {

/// The HS256 secret used to sign all stub-local OIDC tokens (its UTF-8 bytes
/// are the key). It is documented on purpose: the token is not authoritative.
pub const STUB_LOCAL_SECRET: &'static str = "gha-github-service-proof:stub-local:v1";

/// The issuer claim that tells a stub-local token from a GitHub-issued one.
pub const STUB_LOCAL_ISSUER: &'static str = "stub-local://gha-github-service-proof";

/// The warning carried verbatim by every OIDC receipt.
pub const STUB_LOCAL_WARNING: &'static str = "OIDC token is deterministic and signed by gha-github-service-proof with a documented local secret. It is not GitHub-issued and must not be trusted by AWS/GCP/Azure or any other cloud provider as a federated identity. Use for offline CI assertions only.";

pub const STUB_LOCAL_SIGNING_MODE: &'static str = "stub-local";

pub const DEFAULT_TTL_SECONDS: i64 = 300;

/// The JOSE header of every stub-local token, as compact JSON.
pub const TOKEN_HEADER_JSON: &'static str = "{\"alg\":\"HS256\",\"typ\":\"JWT\",\"kid\":\"stub-local\"}";

/// The characters of the URL-safe base64 alphabet.
pub open spec fn url_safe_char(c: char) -> bool {
    ('A' <= c <= 'Z') || ('a' <= c <= 'z') || ('0' <= c <= '9') || c == '-' || c == '_'
}

pub open spec fn all_url_safe(s: Seq<char>) -> bool {
    forall|i: int| 0 <= i < s.len() ==> url_safe_char(#[trigger] s[i])
}

/// The unpadded URL-safe base64 text of `bytes`, as base64's `URL_SAFE_NO_PAD` engine writes it.
pub uninterp spec fn base64url_text(bytes: Seq<u8>) -> Seq<char>;

/// The bytes that base64's `URL_SAFE_NO_PAD` engine decodes from `text`, if it accepts it.
pub uninterp spec fn base64url_bytes(text: Seq<char>) -> Option<Seq<u8>>;

/// The HMAC-SHA256 tag of `message` under `key`, as the hmac and sha2 crates compute it.
pub uninterp spec fn hmac_sha256_tag(key: Seq<u8>, message: Seq<u8>) -> Seq<u8>;

/// Calls `Engine::encode` of base64's `URL_SAFE_NO_PAD` engine. Its output
/// uses the URL-safe alphabet (`A-Z a-z 0-9 - _`) and no padding: four
/// characters for each three bytes, then two for one byte left, three for two.
#[verifier::external_body]
fn base64url_encode(bytes: &[u8]) -> (r: String)
    ensures
        r@ == base64url_text(bytes@),
        all_url_safe(r@),
        r@.len() == (4 * bytes@.len() + 2) / 3,
{
    URL_SAFE_NO_PAD.encode(bytes)
}

/// Calls `Engine::decode` of base64's `URL_SAFE_NO_PAD` engine; an error
/// becomes `None`. What that engine encodes, it decodes back; a text it
/// accepts has the length that the encoding of the decoded bytes has (a
/// single character left over after whole groups of four is refused).
#[verifier::external_body]
fn base64url_decode(text: &str) -> (r: Option<Vec<u8>>)
    ensures
        r matches Some(v) ==> base64url_bytes(text@) == Some(v@),
        r matches Some(v) ==> text@.len() == (4 * v@.len() + 2) / 3,
        r is None ==> base64url_bytes(text@) is None,
        forall|x: Seq<u8>| #[trigger] base64url_text(x) == text@ ==> r is Some && r->0@ == x,
{
    match URL_SAFE_NO_PAD.decode(text) {
        Ok(bytes) => Some(bytes),
        Err(_) => None,
    }
}

/// Calls `Mac::new_from_slice`, `Mac::update` and `Mac::finalize` of
/// `Hmac<Sha256>`: the HMAC-SHA256 tag of `message` under `key`. The hmac
/// crate accepts a key of any length, so the error arm is never taken. The
/// tag is SHA-256's output size, 32 bytes.
#[verifier::external_body]
fn hmac_sha256(key: &[u8], message: &[u8]) -> (r: Vec<u8>)
    ensures
        r@ == hmac_sha256_tag(key@, message@),
        r@.len() == 32,
{
    match Hmac::<Sha256>::new_from_slice(key) {
        Ok(mut mac) => {
            mac.update(message);
            mac.finalize().into_bytes().to_vec()
        },
        Err(_) => Vec::new(),
    }
}

/// Calls `Mac::new_from_slice`, `Mac::update` and `Mac::verify_slice` of
/// `Hmac<Sha256>`: whether `tag` is the whole HMAC-SHA256 tag of `message`
/// under `key` (compared in constant time; a tag that is not 32 bytes long is
/// refused).
#[verifier::external_body]
fn hmac_sha256_verify(key: &[u8], message: &[u8], tag: &[u8]) -> (r: bool)
    ensures
        r == (tag@ == hmac_sha256_tag(key@, message@)),
        r ==> tag@.len() == 32,
{
    match Hmac::<Sha256>::new_from_slice(key) {
        Ok(mut mac) => {
            mac.update(message);
            mac.verify_slice(tag).is_ok()
        },
        Err(_) => false,
    }
}

/// The signing key: the secret's UTF-8 bytes.
pub open spec fn stub_key() -> Seq<u8> {
    encode_utf8(STUB_LOCAL_SECRET@)
}

/// The third part of a token whose first two parts are `h` and `c`.
pub open spec fn stub_signature(h: Seq<char>, c: Seq<char>) -> Seq<char> {
    base64url_text(hmac_sha256_tag(stub_key(), encode_utf8(h + seq!['.'] + c)))
}

/// Whether `token` is `h.c.s`: three URL-safe base64 parts, `s` the encoded
/// HS256 tag of `h.c` under the stub-local secret (43 characters for 32 bytes).
pub open spec fn stub_signed_parts(token: Seq<char>, h: Seq<char>, c: Seq<char>) -> bool {
    &&& all_url_safe(h)
    &&& all_url_safe(c)
    &&& all_url_safe(stub_signature(h, c))
    &&& stub_signature(h, c).len() == 43
    &&& token == h + seq!['.'] + c + seq!['.'] + stub_signature(h, c)
}

/// Whether `token` is signed by the stub-local secret in the compact JWT form.
pub open spec fn stub_signed(token: Seq<char>) -> bool {
    exists|h: Seq<char>, c: Seq<char>| #[trigger] stub_signed_parts(token, h, c)
}

/// The token for a claims object: base64 of the header, base64 of the claims'
/// compact JSON, base64 of the HS256 tag of the two joined by a dot.
pub open spec fn token_for(claims: Seq<(Seq<char>, JsonView)>) -> Seq<char> {
    let h = base64url_text(encode_utf8(TOKEN_HEADER_JSON@));
    let c = base64url_text(encode_utf8(object_text(claims)));
    h + seq!['.'] + c + seq!['.'] + stub_signature(h, c)
}

/// What the local verifier accepts: exactly three dot-separated parts whose
/// third decodes to the HS256 tag of the first two joined by a dot.
pub open spec fn verify_spec(token: Seq<char>) -> bool {
    let parts = split_seq(token, '.');
    &&& parts.len() == 3
    &&& match base64url_bytes(parts[2]) {
        Some(tag) => tag == hmac_sha256_tag(stub_key(), encode_utf8(parts[0] + seq!['.'] + parts[1])),
        None => false,
    }
}

/// Signs a claims object with the stub-local secret.
fn sign_hs256(claims: &Vec<(String, JsonValue)>) -> (token: String)
    ensures
        token@ == token_for(object_view(claims@)),
        stub_signed(token@),
{
    let header_b64 = base64url_encode(TOKEN_HEADER_JSON.as_bytes());
    let mut claims_json = String::new();
    write_object_entries(&mut claims_json, claims);
    assert(claims_json@ =~= object_text(object_view(claims@)));
    let claims_b64 = base64url_encode(claims_json.as_str().as_bytes());
    let signing_input = text::cat3(header_b64.as_str(), ".", claims_b64.as_str());
    proof {
        reveal_strlit(".");
    }
    let key = STUB_LOCAL_SECRET.as_bytes();
    let message = signing_input.as_str().as_bytes();
    let signature = hmac_sha256(key, message);
    let signature_b64 = base64url_encode(signature.as_slice());
    let token = text::cat3(signing_input.as_str(), ".", signature_b64.as_str());
    assert("."@ == seq!['.']);
    assert(signing_input@ == header_b64@ + seq!['.'] + claims_b64@);
    assert(key@ == stub_key());
    assert(message@ == encode_utf8(signing_input@));
    assert(signature@ == hmac_sha256_tag(stub_key(), encode_utf8(signing_input@)));
    assert(signature_b64@ == stub_signature(header_b64@, claims_b64@));
    assert(all_url_safe(header_b64@));
    assert(all_url_safe(claims_b64@));
    assert(all_url_safe(signature_b64@));
    assert(signature_b64@.len() == 43);
    assert(token@ =~= header_b64@ + seq!['.'] + claims_b64@ + seq!['.'] + signature_b64@);
    assert(stub_signed_parts(token@, header_b64@, claims_b64@));
    token
}

/// Whether `token` is a signed stub-local token with one more character at its end.
pub open spec fn appended_to_signed(token: Seq<char>) -> bool {
    exists|t: Seq<char>, ch: char| stub_signed(t) && token == #[trigger] t.push(ch)
}

/// Whether `token` is a stub-local token signed with the documented secret.
/// A signed token passes; one character appended to it makes it fail.
pub fn verify_stub_local(token: &str) -> (r: bool)
    ensures
        r == verify_spec(token@),
        stub_signed(token@) ==> r,
        appended_to_signed(token@) ==> !r,
{
    let ghost pieces = split_seq(token@, '.');
    proof {
        reveal_strlit(".");
        if stub_signed(token@) {
            let (h, c) = choose|h: Seq<char>, c: Seq<char>| stub_signed_parts(token@, h, c);
            let s = stub_signature(h, c);
            assert(token@ =~= h + seq!['.'] + (c + seq!['.'] + s));
            text::lemma_split_joined(h, c + seq!['.'] + s, '.');
            text::lemma_split_joined(c, s, '.');
            text::lemma_split_free(s, '.');
            assert(pieces =~= seq![h, c, s]);
        }
        if appended_to_signed(token@) {
            let (t, ch) = choose|t: Seq<char>, ch: char| stub_signed(t) && token@ == #[trigger] t.push(ch);
            let (h, c) = choose|h: Seq<char>, c: Seq<char>| stub_signed_parts(t, h, c);
            let s = stub_signature(h, c);
            if ch == '.' {
                let e = Seq::<char>::empty();
                assert(token@ =~= h + seq!['.'] + (c + seq!['.'] + (s + seq!['.'] + e)));
                text::lemma_split_joined(h, c + seq!['.'] + (s + seq!['.'] + e), '.');
                text::lemma_split_joined(c, s + seq!['.'] + e, '.');
                text::lemma_split_joined(s, e, '.');
                text::lemma_split_free(e, '.');
                assert(pieces =~= seq![h, c, s, e]);
            } else {
                let s2 = s.push(ch);
                assert(token@ =~= h + seq!['.'] + (c + seq!['.'] + s2));
                text::lemma_split_joined(h, c + seq!['.'] + s2, '.');
                text::lemma_split_joined(c, s2, '.');
                assert forall|i: int| 0 <= i < s2.len() implies s2[i] != '.' by {
                    if i < s.len() {
                        assert(url_safe_char(s[i]));
                    }
                }
                text::lemma_split_free(s2, '.');
                assert(pieces =~= seq![h, c, s2]);
                assert(pieces[2].len() == 44);
            }
        }
    }
    let parts = text::split(token, '.');
    if parts.len() != 3 {
        return false;
    }
    assert(parts[0]@ == pieces[0] && parts[1]@ == pieces[1] && parts[2]@ == pieces[2]);
    let signing_input = text::cat3(parts[0].as_str(), ".", parts[1].as_str());
    assert(signing_input@ == pieces[0] + seq!['.'] + pieces[1]);
    let expected = match base64url_decode(parts[2].as_str()) {
        Some(bytes) => bytes,
        None => {
            return false;
        },
    };
    assert(base64url_bytes(pieces[2]) == Some(expected@));
    let key = STUB_LOCAL_SECRET.as_bytes();
    let message = signing_input.as_str().as_bytes();
    assert(key@ == stub_key());
    assert(message@ == encode_utf8(signing_input@));
    hmac_sha256_verify(key, message, expected.as_slice())
}

#[derive(Debug)]
pub struct IssueOptions {
    pub audience: String,
    pub repository: String,
    pub git_ref: String,
    pub sha: String,
    pub workflow: String,
    pub job: String,
    pub run_id: String,
    pub job_workflow_ref: Option<String>,
    pub permissions: Option<PermissionSet>,
    pub now: Option<Timestamp>,
    pub ttl_seconds: Option<i64>,
    /// Claims added beside the standard ones, in order: a later key replaces an
    /// earlier one, and a standard claim's name keeps the standard claim.
    pub extra_claims: Vec<(String, JsonValue)>,
}

#[verifier::ext_equal]
pub struct IssueOptionsView {
    pub audience: Seq<char>,
    pub repository: Seq<char>,
    pub git_ref: Seq<char>,
    pub sha: Seq<char>,
    pub workflow: Seq<char>,
    pub job: Seq<char>,
    pub run_id: Seq<char>,
    pub job_workflow_ref: Option<Seq<char>>,
    pub permissions: Option<PermissionSetView>,
    pub now: Option<Timestamp>,
    pub ttl_seconds: Option<i64>,
    pub extra_claims: Seq<(Seq<char>, JsonView)>,
}

impl DeepView for IssueOptions {
    type V = IssueOptionsView;

    open spec fn deep_view(&self) -> IssueOptionsView {
        IssueOptionsView {
            audience: self.audience@,
            repository: self.repository@,
            git_ref: self.git_ref@,
            sha: self.sha@,
            workflow: self.workflow@,
            job: self.job@,
            run_id: self.run_id@,
            job_workflow_ref: self.job_workflow_ref.deep_view(),
            permissions: self.permissions.deep_view(),
            now: self.now,
            ttl_seconds: self.ttl_seconds,
            extra_claims: object_view(self.extra_claims@),
        }
    }
}

/// A `NAME=JSON` claim argument: the trimmed name before the first `=` and
/// the trimmed JSON text after it; `None` without an `=`.
pub open spec fn claim_argument_spec(entry: Seq<char>) -> Option<(Seq<char>, Seq<char>)> {
    match split_once_seq(entry, '=') {
        Some((name, value)) => Some((trim_seq(name), trim_seq(value))),
        None => None,
    }
}

/// Splits a `NAME=JSON` claim argument (see `claim_argument_spec`).
pub fn claim_argument(entry: &str) -> (r: Option<(String, String)>)
    ensures
        match claim_argument_spec(entry@) {
            Some((name, value)) => r matches Some((n, v)) && n@ == name && v@ == value,
            None => r is None,
        },
{
    match text::split_once(entry, '=') {
        Some((name, value)) => Some((text::trim(name.as_str()), text::trim(value.as_str()))),
        None => None,
    }
}

/// The token lifetime: the given one (300 s by default), at least one second.
pub open spec fn effective_ttl(o: IssueOptionsView) -> int {
    let t = match o.ttl_seconds {
        Some(t) => t as int,
        None => DEFAULT_TTL_SECONDS as int,
    };
    if t < 1 {
        1
    } else {
        t
    }
}

pub open spec fn job_workflow_ref_of(o: IssueOptionsView) -> Seq<char> {
    match o.job_workflow_ref {
        Some(r) => r,
        None => o.repository + "/.github/workflows/"@ + o.workflow,
    }
}

pub open spec fn sub_of(o: IssueOptionsView) -> Seq<char> {
    "repo:"@ + o.repository + ":ref:"@ + o.git_ref
}

/// The `id-token` level of the given permissions; none without permissions.
pub open spec fn id_token_level(o: IssueOptionsView) -> PermissionLevel {
    match o.permissions {
        Some(set) => set_level(set, PermissionKey::IdToken),
        None => PermissionLevel::NoAccess,
    }
}

pub open spec fn audience_checks(o: IssueOptionsView) -> Seq<CheckView> {
    if trim_seq(o.audience).len() == 0 {
        seq![
            check_of(
                "oidc.audience_missing"@,
                CheckStatus::Fail,
                "audience must be a non-empty string"@,
            ),
        ]
    } else {
        Seq::empty()
    }
}

pub open spec fn repository_checks(o: IssueOptionsView) -> Seq<CheckView> {
    if trim_seq(o.repository).len() == 0 {
        seq![
            check_of(
                "oidc.repository_missing"@,
                CheckStatus::Fail,
                "repository must be in 'owner/repo' form"@,
            ),
        ]
    } else if find_char(o.repository, '/') is None {
        seq![
            check_of(
                "oidc.repository_format"@,
                CheckStatus::Warn,
                "repository '"@ + o.repository
                    + "' is not in 'owner/repo' form; ci-forge may treat the sub claim as malformed"@,
            ),
        ]
    } else {
        Seq::empty()
    }
}

pub open spec fn id_token_checks(o: IssueOptionsView) -> Seq<CheckView> {
    if level_rank(id_token_level(o)) < level_rank(PermissionLevel::Write) {
        match o.permissions {
            Some(_) => seq![
                check_of(
                    "oidc.id_token_not_granted"@,
                    CheckStatus::Fail,
                    "OIDC token requires `permissions: id-token: write`; current effective level is below `write`"@,
                ),
            ],
            None => seq![
                check_of(
                    "oidc.id_token_unverified"@,
                    CheckStatus::Warn,
                    "no permissions provided; cannot verify `id-token: write` is granted"@,
                ),
            ],
        }
    } else {
        seq![
            check_of(
                "oidc.id_token_granted"@,
                CheckStatus::Pass,
                "`id-token: write` permission is granted"@,
            ),
        ]
    }
}

pub open spec fn stub_local_check() -> CheckView {
    check_of(
        "oidc.stub_local"@,
        CheckStatus::Warn,
        "OIDC token is stub-local: signed with a documented constant secret and not trusted by GitHub or cloud providers."@,
    )
}

/// The checks of an issued token, in order.
pub open spec fn issue_checks(o: IssueOptionsView) -> Seq<CheckView> {
    audience_checks(o) + repository_checks(o) + id_token_checks(o) + seq![stub_local_check()]
}

/// `m` with the standard claims of a token issued at `iat`, expiring at
/// `exp`, stored into it: each replaces any entry of the same name.
pub open spec fn with_standard_claims(
    m: Seq<(Seq<char>, JsonView)>,
    o: IssueOptionsView,
    iat: i64,
    exp: i64,
) -> Seq<(Seq<char>, JsonView)> {
    let m = object_insert(m, "iss"@, JsonView::Text(STUB_LOCAL_ISSUER@));
    let m = object_insert(m, "sub"@, JsonView::Text(sub_of(o)));
    let m = object_insert(m, "aud"@, JsonView::Text(o.audience));
    let m = object_insert(m, "iat"@, JsonView::Number(signed_decimal(iat as int)));
    let m = object_insert(m, "exp"@, JsonView::Number(signed_decimal(exp as int)));
    let m = object_insert(m, "repository"@, JsonView::Text(o.repository));
    let m = match split_once_seq(o.repository, '/') {
        Some((owner, _)) => object_insert(m, "repository_owner"@, JsonView::Text(owner)),
        None => m,
    };
    let m = object_insert(m, "ref"@, JsonView::Text(o.git_ref));
    let m = object_insert(m, "sha"@, JsonView::Text(o.sha));
    let m = object_insert(m, "workflow"@, JsonView::Text(o.workflow));
    let m = object_insert(m, "job"@, JsonView::Text(o.job));
    let m = object_insert(m, "job_workflow_ref"@, JsonView::Text(job_workflow_ref_of(o)));
    let m = object_insert(m, "run_id"@, JsonView::Text(o.run_id));
    object_insert(m, "stub_local"@, JsonView::Bool(true))
}

/// `entries` stored into `m` one after another.
pub open spec fn insert_all(
    m: Seq<(Seq<char>, JsonView)>,
    entries: Seq<(Seq<char>, JsonView)>,
) -> Seq<(Seq<char>, JsonView)>
    decreases entries.len(),
{
    if entries.len() == 0 {
        m
    } else {
        insert_all(object_insert(m, entries[0].0, entries[0].1), entries.drop_first())
    }
}

/// The extra claims as one object: a later entry replaces an earlier one of
/// the same name.
pub open spec fn extra_claims_object(o: IssueOptionsView) -> Seq<(Seq<char>, JsonView)> {
    insert_all(Seq::empty(), o.extra_claims)
}

/// All claims of a token issued at `iat`, expiring at `exp`: the extra claims,
/// with the standard claims stored over them, so that an extra claim only adds
/// a name and never replaces a standard claim.
pub open spec fn issue_claims(o: IssueOptionsView, iat: i64, exp: i64) -> Seq<
    (Seq<char>, JsonView),
> {
    with_standard_claims(extra_claims_object(o), o, iat, exp)
}

/// The report of a token issued at `now`.
pub open spec fn issue_at_spec(o: IssueOptionsView, now: Timestamp) -> OidcReportView {
    let iat = now.seconds;
    let exp = (iat + effective_ttl(o)) as i64;
    let claims = issue_claims(o, iat, exp);
    OidcReportView {
        audience: o.audience,
        repository: o.repository,
        git_ref: o.git_ref,
        sha: o.sha,
        workflow: o.workflow,
        job: o.job,
        job_workflow_ref: job_workflow_ref_of(o),
        run_id: o.run_id,
        iat,
        exp,
        claims,
        token: token_for(claims),
        signing_mode: STUB_LOCAL_SIGNING_MODE@,
        compatibility: Compatibility::Simulated,
        permissions: o.permissions,
        checks: issue_checks(o),
        warning: STUB_LOCAL_WARNING@,
    }
}

fn push_text_claim(claims: &mut Vec<(String, JsonValue)>, key: &str, value: String)
    ensures
        object_view(final(claims)@) == object_insert(
            object_view(old(claims)@),
            key@,
            JsonView::Text(value@),
        ),
{
    insert_entry(claims, text::own(key), JsonValue::Text(value));
}

/// The checks that come before signing: audience, repository, `id-token`.
fn issue_checks_exec(options: &IssueOptions) -> (checks: Vec<Check>)
    ensures
        checks.deep_view() + seq![stub_local_check()] == issue_checks(options.deep_view()),
{
    let ghost o = options.deep_view();
    let mut checks: Vec<Check> = Vec::new();
    if text::trim(options.audience.as_str()).as_str().is_empty() {
        checks.push(
            Check::fail(
                text::own("oidc.audience_missing"),
                text::own("audience must be a non-empty string"),
            ),
        );
    }
    let ghost after_audience = checks.deep_view();
    assert(after_audience =~= audience_checks(o));
    if text::trim(options.repository.as_str()).as_str().is_empty() {
        checks.push(
            Check::fail(
                text::own("oidc.repository_missing"),
                text::own("repository must be in 'owner/repo' form"),
            ),
        );
    } else if !text::contains_char(options.repository.as_str(), '/') {
        checks.push(
            Check::warn(
                text::own("oidc.repository_format"),
                text::cat3(
                    "repository '",
                    options.repository.as_str(),
                    "' is not in 'owner/repo' form; ci-forge may treat the sub claim as malformed",
                ),
            ),
        );
    }
    let ghost after_repository = checks.deep_view();
    assert(after_repository =~= after_audience + repository_checks(o));
    let id_level = match &options.permissions {
        Some(set) => set.level(PermissionKey::IdToken),
        None => PermissionLevel::NoAccess,
    };
    if !id_level.satisfies(PermissionLevel::Write) {
        match &options.permissions {
            Some(_) => checks.push(
                Check::fail(
                    text::own("oidc.id_token_not_granted"),
                    text::own(
                        "OIDC token requires `permissions: id-token: write`; current effective level is below `write`",
                    ),
                ),
            ),
            None => checks.push(
                Check::warn(
                    text::own("oidc.id_token_unverified"),
                    text::own("no permissions provided; cannot verify `id-token: write` is granted"),
                ),
            ),
        }
    } else {
        checks.push(
            Check::pass(
                text::own("oidc.id_token_granted"),
                text::own("`id-token: write` permission is granted"),
            ),
        );
    }
    assert(checks.deep_view() =~= after_repository + id_token_checks(o));
    assert(checks.deep_view() + seq![stub_local_check()] =~= issue_checks(o));
    checks
}

/// Stores the standard claims into `claims`, in the order of `with_standard_claims`.
fn store_standard_claims(
    claims: &mut Vec<(String, JsonValue)>,
    options: &IssueOptions,
    iat: i64,
    exp: i64,
    job_workflow_ref: &String,
)
    requires
        job_workflow_ref@ == job_workflow_ref_of(options.deep_view()),
    ensures
        object_view(final(claims)@) == with_standard_claims(
            object_view(old(claims)@),
            options.deep_view(),
            iat,
            exp,
        ),
{
    push_text_claim(claims, "iss", text::own(STUB_LOCAL_ISSUER));
    let sub = text::cat4("repo:", options.repository.as_str(), ":ref:", options.git_ref.as_str());
    push_text_claim(claims, "sub", sub);
    push_text_claim(claims, "aud", options.audience.clone());
    insert_entry(claims, text::own("iat"), JsonValue::Number(text::i64_to_string(iat)));
    insert_entry(claims, text::own("exp"), JsonValue::Number(text::i64_to_string(exp)));
    push_text_claim(claims, "repository", options.repository.clone());
    match text::split_once(options.repository.as_str(), '/') {
        Some((owner, _)) => {
            push_text_claim(claims, "repository_owner", owner);
        },
        None => {},
    }
    push_text_claim(claims, "ref", options.git_ref.clone());
    push_text_claim(claims, "sha", options.sha.clone());
    push_text_claim(claims, "workflow", options.workflow.clone());
    push_text_claim(claims, "job", options.job.clone());
    push_text_claim(claims, "job_workflow_ref", job_workflow_ref.clone());
    push_text_claim(claims, "run_id", options.run_id.clone());
    insert_entry(claims, text::own("stub_local"), JsonValue::Bool(true));
}

/// Issues a stub-local token at `now` (the instant in `options` is not read).
pub fn issue_at(options: IssueOptions, now: Timestamp) -> (r: OidcReport)
    requires
        now.seconds + effective_ttl(options.deep_view()) <= i64::MAX,
    ensures
        r.deep_view() == issue_at_spec(options.deep_view(), now),
        stub_signed(r.token@),
        object_get(object_view(r.claims@), "stub_local"@) == Some(JsonView::Bool(true)),
        object_get(object_view(r.claims@), "iss"@) == Some(JsonView::Text(STUB_LOCAL_ISSUER@)),
{
    let ghost o = options.deep_view();
    let mut checks = issue_checks_exec(&options);
    let ttl_given = match options.ttl_seconds {
        Some(t) => t,
        None => DEFAULT_TTL_SECONDS,
    };
    let ttl = if ttl_given < 1 {
        1
    } else {
        ttl_given
    };
    let iat = now.seconds;
    let exp = iat + ttl;
    let job_workflow_ref = match &options.job_workflow_ref {
        Some(r) => r.clone(),
        None => text::cat3(
            options.repository.as_str(),
            "/.github/workflows/",
            options.workflow.as_str(),
        ),
    };
    let mut claims: Vec<(String, JsonValue)> = Vec::new();
    let mut extras = crate::value::copy_entries(&options.extra_claims);
    assert(object_view(claims@) =~= Seq::<(Seq<char>, JsonView)>::empty());
    assert(insert_all(object_view(claims@), object_view(extras@)) == extra_claims_object(o));
    while extras.len() > 0
        invariant
            insert_all(object_view(claims@), object_view(extras@)) == extra_claims_object(o),
        decreases extras.len(),
    {
        let ghost before = object_view(extras@);
        let (key, value) = extras.remove(0);
        assert(object_view(extras@) =~= before.drop_first());
        insert_entry(&mut claims, key, value);
    }
    assert(object_view(extras@) =~= Seq::<(Seq<char>, JsonView)>::empty());
    store_standard_claims(&mut claims, &options, iat, exp, &job_workflow_ref);
    assert(object_view(claims@) == issue_claims(o, iat, exp));
    let token = sign_hs256(&claims);
    checks.push(
        Check::warn(
            text::own("oidc.stub_local"),
            text::own(
                "OIDC token is stub-local: signed with a documented constant secret and not trusted by GitHub or cloud providers.",
            ),
        ),
    );
    let r = OidcReport {
        audience: options.audience,
        repository: options.repository,
        git_ref: options.git_ref,
        sha: options.sha,
        workflow: options.workflow,
        job: options.job,
        job_workflow_ref,
        run_id: options.run_id,
        iat,
        exp,
        claims,
        token,
        signing_mode: text::own(STUB_LOCAL_SIGNING_MODE),
        compatibility: Compatibility::Simulated,
        permissions: options.permissions,
        checks,
        warning: text::own(STUB_LOCAL_WARNING),
    };
    assert(r.deep_view() =~= issue_at_spec(o, now));
    proof {
        law_standard_claims(o, iat, exp, "stub_local"@);
        law_standard_claims(o, iat, exp, "iss"@);
    }
    r
}

/// Issues a stub-local token at the given instant, or now when none is given.
/// `None` when the expiry would not fit in `i64` seconds.
pub fn issue(options: IssueOptions) -> (r: Option<OidcReport>)
    ensures
        match options.now {
            Some(t) => match r {
                Some(report) => t.seconds + effective_ttl(options.deep_view()) <= i64::MAX
                    && report.deep_view() == issue_at_spec(options.deep_view(), t),
                None => t.seconds + effective_ttl(options.deep_view()) > i64::MAX,
            },
            None => (r matches Some(report) ==> exists|t: Timestamp|
                timestamp_valid(t) && t.seconds >= 0 && report.deep_view() == #[trigger] issue_at_spec(
                    options.deep_view(),
                    t,
                )) && (effective_ttl(options.deep_view()) <= i64::MAX - LATEST_SECOND ==> r is Some),
        },
        r matches Some(report) ==> stub_signed(report.token@),
        r matches Some(report) ==> object_get(object_view(report.claims@), "stub_local"@) == Some(
            JsonView::Bool(true),
        ),
        r matches Some(report) ==> object_get(object_view(report.claims@), "iss"@) == Some(
            JsonView::Text(STUB_LOCAL_ISSUER@),
        ),
{
    let ghost o = options.deep_view();
    let now = match options.now {
        Some(t) => t,
        None => now_utc(),
    };
    let ttl_given = match options.ttl_seconds {
        Some(t) => t,
        None => DEFAULT_TTL_SECONDS,
    };
    let ttl = if ttl_given < 1 {
        1
    } else {
        ttl_given
    };
    if now.seconds > i64::MAX - ttl {
        return None;
    }
    Some(issue_at(options, now))
}

/// Storing a run of entries keeps an object in key order, and leaves every
/// key that none of them names as it was.
proof fn lemma_insert_all(
    m: Seq<(Seq<char>, JsonView)>,
    entries: Seq<(Seq<char>, JsonView)>,
    other: Seq<char>,
)
    ensures
        keys_ascending(m) ==> keys_ascending(insert_all(m, entries)),
        (forall|i: int| 0 <= i < entries.len() ==> #[trigger] entries[i].0 != other) ==> object_get(
            insert_all(m, entries),
            other,
        ) == object_get(m, other),
    decreases entries.len(),
{
    if entries.len() > 0 {
        law_object_insert(m, entries[0].0, entries[0].1, other);
        lemma_insert_all(object_insert(m, entries[0].0, entries[0].1), entries.drop_first(), other);
        if forall|i: int| 0 <= i < entries.len() ==> #[trigger] entries[i].0 != other {
            assert forall|i: int| 0 <= i < entries.drop_first().len() implies #[trigger] entries.drop_first()[i].0
                != other by {
                assert(entries.drop_first()[i] == entries[i + 1]);
            }
        }
    }
}

/// The names of the standard claims.
pub open spec fn standard_claim_name(key: Seq<char>) -> bool {
    ||| key == "iss"@
    ||| key == "sub"@
    ||| key == "aud"@
    ||| key == "iat"@
    ||| key == "exp"@
    ||| key == "repository"@
    ||| key == "repository_owner"@
    ||| key == "ref"@
    ||| key == "sha"@
    ||| key == "workflow"@
    ||| key == "job"@
    ||| key == "job_workflow_ref"@
    ||| key == "run_id"@
    ||| key == "stub_local"@
}

/// Storing the standard claims keeps key order, gives each of the fixed
/// standard claims its value whatever `m` held, and leaves every other name
/// as it was in `m`.
proof fn lemma_with_standard_claims(
    m: Seq<(Seq<char>, JsonView)>,
    o: IssueOptionsView,
    iat: i64,
    exp: i64,
    key: Seq<char>,
)
    ensures
        keys_ascending(m) ==> keys_ascending(with_standard_claims(m, o, iat, exp)),
        key == "iss"@ ==> object_get(with_standard_claims(m, o, iat, exp), key) == Some(
            JsonView::Text(STUB_LOCAL_ISSUER@),
        ),
        key == "sub"@ ==> object_get(with_standard_claims(m, o, iat, exp), key) == Some(
            JsonView::Text(sub_of(o)),
        ),
        key == "aud"@ ==> object_get(with_standard_claims(m, o, iat, exp), key) == Some(
            JsonView::Text(o.audience),
        ),
        key == "iat"@ ==> object_get(with_standard_claims(m, o, iat, exp), key) == Some(
            JsonView::Number(signed_decimal(iat as int)),
        ),
        key == "exp"@ ==> object_get(with_standard_claims(m, o, iat, exp), key) == Some(
            JsonView::Number(signed_decimal(exp as int)),
        ),
        key == "stub_local"@ ==> object_get(with_standard_claims(m, o, iat, exp), key) == Some(
            JsonView::Bool(true),
        ),
        key == "repository"@ ==> object_get(with_standard_claims(m, o, iat, exp), key) == Some(JsonView::Text(o.repository)),
        key == "repository_owner"@ ==> object_get(with_standard_claims(m, o, iat, exp), key) == match split_once_seq(o.repository, '/') {
            Some((owner, _)) => Some(JsonView::Text(owner)),
            None => object_get(m, key),
        },
        key == "ref"@ ==> object_get(with_standard_claims(m, o, iat, exp), key) == Some(JsonView::Text(o.git_ref)),
        key == "sha"@ ==> object_get(with_standard_claims(m, o, iat, exp), key) == Some(JsonView::Text(o.sha)),
        key == "workflow"@ ==> object_get(with_standard_claims(m, o, iat, exp), key) == Some(JsonView::Text(o.workflow)),
        key == "job"@ ==> object_get(with_standard_claims(m, o, iat, exp), key) == Some(JsonView::Text(o.job)),
        key == "job_workflow_ref"@ ==> object_get(with_standard_claims(m, o, iat, exp), key) == Some(
            JsonView::Text(job_workflow_ref_of(o)),
        ),
        key == "run_id"@ ==> object_get(with_standard_claims(m, o, iat, exp), key) == Some(JsonView::Text(o.run_id)),
        !standard_claim_name(key) ==> object_get(with_standard_claims(m, o, iat, exp), key)
            == object_get(m, key),
{
    reveal_strlit("iss");
    reveal_strlit("sub");
    reveal_strlit("aud");
    reveal_strlit("iat");
    reveal_strlit("exp");
    reveal_strlit("repository");
    reveal_strlit("repository_owner");
    reveal_strlit("ref");
    reveal_strlit("sha");
    reveal_strlit("workflow");
    reveal_strlit("job");
    reveal_strlit("job_workflow_ref");
    reveal_strlit("run_id");
    reveal_strlit("stub_local");
    if key == "iss"@ {
        assert("sub"@[0] != key[0] && "aud"@[0] != key[0] && "iat"@[1] != key[1]);
        assert("exp"@[0] != key[0] && "ref"@[0] != key[0] && "sha"@[0] != key[0]);
        assert("job"@[0] != key[0]);
    }
    if key == "sub"@ {
        assert("aud"@[0] != key[0] && "iat"@[0] != key[0] && "exp"@[0] != key[0]);
        assert("ref"@[0] != key[0] && "sha"@[1] != key[1] && "job"@[0] != key[0]);
    }
    if key == "aud"@ {
        assert("iat"@[0] != key[0] && "exp"@[0] != key[0] && "ref"@[0] != key[0]);
        assert("sha"@[0] != key[0] && "job"@[0] != key[0]);
    }
    if key == "iat"@ {
        assert("exp"@[0] != key[0] && "ref"@[0] != key[0] && "sha"@[0] != key[0]);
        assert("job"@[0] != key[0]);
    }
    if key == "exp"@ {
        assert("ref"@[0] != key[0] && "sha"@[0] != key[0] && "job"@[0] != key[0]);
    }
    if key == "ref"@ {
        assert("sha"@[0] != key[0] && "job"@[0] != key[0]);
    }
    if key == "sha"@ {
        assert("job"@[0] != key[0]);
    }
    if key == "repository_owner"@ {
        assert("job_workflow_ref"@[0] != key[0]);
    }
    if key == "repository"@ {
        assert("stub_local"@[0] != key[0]);
    }
    let k = key;
    let m0 = object_insert(m, "iss"@, JsonView::Text(STUB_LOCAL_ISSUER@));
    law_object_insert(m, "iss"@, JsonView::Text(STUB_LOCAL_ISSUER@), k);
    let m1 = object_insert(m0, "sub"@, JsonView::Text(sub_of(o)));
    law_object_insert(m0, "sub"@, JsonView::Text(sub_of(o)), k);
    let m2 = object_insert(m1, "aud"@, JsonView::Text(o.audience));
    law_object_insert(m1, "aud"@, JsonView::Text(o.audience), k);
    let m3 = object_insert(m2, "iat"@, JsonView::Number(signed_decimal(iat as int)));
    law_object_insert(m2, "iat"@, JsonView::Number(signed_decimal(iat as int)), k);
    let m4 = object_insert(m3, "exp"@, JsonView::Number(signed_decimal(exp as int)));
    law_object_insert(m3, "exp"@, JsonView::Number(signed_decimal(exp as int)), k);
    let m5 = object_insert(m4, "repository"@, JsonView::Text(o.repository));
    law_object_insert(m4, "repository"@, JsonView::Text(o.repository), k);
    let m6 = match split_once_seq(o.repository, '/') {
        Some((owner, _)) => object_insert(m5, "repository_owner"@, JsonView::Text(owner)),
        None => m5,
    };
    match split_once_seq(o.repository, '/') {
        Some((owner, _)) => {
            law_object_insert(m5, "repository_owner"@, JsonView::Text(owner), k);
        },
        None => {},
    }
    let m7 = object_insert(m6, "ref"@, JsonView::Text(o.git_ref));
    law_object_insert(m6, "ref"@, JsonView::Text(o.git_ref), k);
    let m8 = object_insert(m7, "sha"@, JsonView::Text(o.sha));
    law_object_insert(m7, "sha"@, JsonView::Text(o.sha), k);
    let m9 = object_insert(m8, "workflow"@, JsonView::Text(o.workflow));
    law_object_insert(m8, "workflow"@, JsonView::Text(o.workflow), k);
    let m10 = object_insert(m9, "job"@, JsonView::Text(o.job));
    law_object_insert(m9, "job"@, JsonView::Text(o.job), k);
    let m11 = object_insert(m10, "job_workflow_ref"@, JsonView::Text(job_workflow_ref_of(o)));
    law_object_insert(m10, "job_workflow_ref"@, JsonView::Text(job_workflow_ref_of(o)), k);
    let m12 = object_insert(m11, "run_id"@, JsonView::Text(o.run_id));
    law_object_insert(m11, "run_id"@, JsonView::Text(o.run_id), k);
    let m13 = object_insert(m12, "stub_local"@, JsonView::Bool(true));
    law_object_insert(m12, "stub_local"@, JsonView::Bool(true), k);
    assert(m13 == with_standard_claims(m, o, iat, exp));
}

/// The claims of an issued token are in key order, each key once.
pub proof fn law_claims_in_key_order(o: IssueOptionsView, iat: i64, exp: i64)
    ensures
        keys_ascending(issue_claims(o, iat, exp)),
{
    let e = Seq::<(Seq<char>, JsonView)>::empty();
    assert(keys_ascending(e));
    lemma_insert_all(e, o.extra_claims, "iss"@);
    lemma_with_standard_claims(extra_claims_object(o), o, iat, exp, "iss"@);
}

/// Whatever extra claims are given, an issued token carries the stub-local
/// issuer, the `repo:{repository}:ref:{ref}` subject, the audience, the issue
/// and expiry times, `stub_local: true`, and the repository, its owner (when
/// the repository has a `/`), ref, commit sha, workflow, job, job workflow ref
/// and run id as the options give them; an extra claim whose name is not a
/// standard claim's is carried as the extra claims give it.
pub proof fn law_standard_claims(o: IssueOptionsView, iat: i64, exp: i64, key: Seq<char>)
    ensures
        key == "iss"@ ==> object_get(issue_claims(o, iat, exp), key) == Some(
            JsonView::Text(STUB_LOCAL_ISSUER@),
        ),
        key == "sub"@ ==> object_get(issue_claims(o, iat, exp), key) == Some(
            JsonView::Text(sub_of(o)),
        ),
        key == "aud"@ ==> object_get(issue_claims(o, iat, exp), key) == Some(
            JsonView::Text(o.audience),
        ),
        key == "iat"@ ==> object_get(issue_claims(o, iat, exp), key) == Some(
            JsonView::Number(signed_decimal(iat as int)),
        ),
        key == "exp"@ ==> object_get(issue_claims(o, iat, exp), key) == Some(
            JsonView::Number(signed_decimal(exp as int)),
        ),
        key == "stub_local"@ ==> object_get(issue_claims(o, iat, exp), key) == Some(
            JsonView::Bool(true),
        ),
        key == "repository"@ ==> object_get(issue_claims(o, iat, exp), key) == Some(JsonView::Text(o.repository)),
        key == "repository_owner"@ ==> object_get(issue_claims(o, iat, exp), key) == match split_once_seq(o.repository, '/') {
            Some((owner, _)) => Some(JsonView::Text(owner)),
            None => object_get(extra_claims_object(o), key),
        },
        key == "ref"@ ==> object_get(issue_claims(o, iat, exp), key) == Some(JsonView::Text(o.git_ref)),
        key == "sha"@ ==> object_get(issue_claims(o, iat, exp), key) == Some(JsonView::Text(o.sha)),
        key == "workflow"@ ==> object_get(issue_claims(o, iat, exp), key) == Some(JsonView::Text(o.workflow)),
        key == "job"@ ==> object_get(issue_claims(o, iat, exp), key) == Some(JsonView::Text(o.job)),
        key == "job_workflow_ref"@ ==> object_get(issue_claims(o, iat, exp), key) == Some(
            JsonView::Text(job_workflow_ref_of(o)),
        ),
        key == "run_id"@ ==> object_get(issue_claims(o, iat, exp), key) == Some(JsonView::Text(o.run_id)),
        !standard_claim_name(key) ==> object_get(issue_claims(o, iat, exp), key) == object_get(
            extra_claims_object(o),
            key,
        ),
{
    lemma_with_standard_claims(extra_claims_object(o), o, iat, exp, key);
}

/// Every issued token's checks end with the stub-local warning, and the
/// `id-token` check passes exactly when the given permissions grant
/// `id-token: write`; it fails when they do not and warns without permissions.
pub proof fn law_issue_checks(o: IssueOptionsView)
    ensures
        issue_checks(o).len() >= 2,
        issue_checks(o).last() == stub_local_check(),
        issue_checks(o)[issue_checks(o).len() - 2] == id_token_checks(o)[0],
        id_token_checks(o).len() == 1,
        (id_token_checks(o)[0].status == CheckStatus::Pass) == (o.permissions matches Some(set)
            && set_level(set, PermissionKey::IdToken) == PermissionLevel::Write),
        (id_token_checks(o)[0].status == CheckStatus::Fail) == (o.permissions matches Some(set)
            && set_level(set, PermissionKey::IdToken) != PermissionLevel::Write),
        (id_token_checks(o)[0].status == CheckStatus::Warn) == (o.permissions is None),
{
    let c = issue_checks(o);
    assert(c == audience_checks(o) + repository_checks(o) + id_token_checks(o) + seq![
        stub_local_check(),
    ]);
}

/// A token lives for the given number of seconds (300 by default), never
/// less than one: its expiry is its issue time plus that lifetime.
pub proof fn law_token_lifetime(o: IssueOptionsView, now: Timestamp)
    requires
        now.seconds + effective_ttl(o) <= i64::MAX,
    ensures
        issue_at_spec(o, now).iat == now.seconds,
        issue_at_spec(o, now).exp - issue_at_spec(o, now).iat == effective_ttl(o),
        effective_ttl(o) >= 1,
        o.ttl_seconds is None ==> effective_ttl(o) == 300,
{
}

} // verus!
