//! Sign-in, registration and session decisions of the control plane.

use vstd::prelude::*;
use argon2::password_hash::{PasswordHash, SaltString};
use argon2::{Argon2, PasswordHasher, PasswordVerifier};
use crate::error::{bad_request, conflict, forbidden, unauthorized, AppError, ErrKind};
use crate::text::{
    ascii_lower_char, ascii_lower_seq, cat2, cat3, chars_of, opt_view, owned, str_eq,
};

verus! {

// ── Requests and answers ────────────────────────────────────────────────────

pub struct LoginRequest {
    pub username: String,
    pub password: String,
    pub totp_code: Option<String>,
}

pub struct LoginResponse {
    pub token: String,
    pub refresh_token: String,
    pub user: UserInfo,
}

pub struct UserInfo {
    pub id: String,
    pub username: String,
    pub email: String,
    pub display_name: Option<String>,
    pub is_global_admin: bool,
}

pub struct RegisterRequest {
    pub username: String,
    pub email: String,
    pub password: String,
    pub display_name: Option<String>,
}

pub struct ForgotPasswordRequest {
    pub email: String,
}

pub struct ResetPasswordRequest {
    pub token: String,
    pub new_password: String,
}

pub struct RefreshRequest {
    pub refresh_token: String,
}

pub struct TotpSetupResponse {
    pub secret: String,
    pub qr_url: String,
}

pub struct TotpVerifyRequest {
    pub code: String,
}

/// The length of a string in UTF-8 bytes (`str::len`).
pub open spec fn byte_len(s: Seq<char>) -> usize {
    vstd::utf8::encode_utf8(s).len() as usize
}

fn str_byte_len(s: &str) -> (n: usize)
    ensures
        n == byte_len(s@),
{
    s.len()
}

// ── Passwords ───────────────────────────────────────────────────────────────

/// Whether `password` matches an argon2 PHC hash string.
pub uninterp spec fn argon2_verifies(password: Seq<char>, hash: Seq<char>) -> bool;

/// Whether a text parses as a PHC hash string
/// (`PasswordHash::new` succeeds on it).
pub uninterp spec fn phc_parses(hash: Seq<char>) -> bool;

/// Verify a password against an argon2 PHC string.
///
/// Trusted: `argon2::password_hash::PasswordHash::new` parses the stored
/// string and `Argon2::default().verify_password` checks the password
/// against it; an unparsable hash verifies nothing (the body answers
/// `false` without checking). The outcome depends on the two strings alone.
#[verifier::external_body]
fn verify_password(password: &str, hash: &str) -> (ok: bool)
    ensures
        ok == argon2_verifies(password@, hash@),
        ok ==> phc_parses(hash@),
{
    match PasswordHash::new(hash) {
        Ok(parsed) => Argon2::default().verify_password(password.as_bytes(), &parsed).is_ok(),
        Err(_) => false,
    }
}

/// Hash a password with argon2id and a fresh random salt.
///
/// Trusted: `Argon2::default().hash_password` with a salt from
/// `SaltString::generate`, written as its PHC string. The text depends on
/// the random salt; what the crate documents of it is that it parses back
/// with `PasswordHash::new` and verifies the password it was made from.
/// The hasher refuses only a password longer than `MAX_PWD_LEN`
/// (0xFFFFFFFF bytes); the generated salt (16 random bytes) always fits its
/// bounds and the default parameters and output length are valid. A
/// failure is passed on as its message.
#[verifier::external_body]
fn argon2_hash(password: &str) -> (r: Result<String, String>)
    ensures
        r is Err <==> vstd::utf8::encode_utf8(password@).len() > 0xFFFF_FFFF,
        r matches Ok(h) ==> argon2_verifies(password@, h@) && phc_parses(h@),
{
    let salt = SaltString::generate(&mut rand::thread_rng());
    match Argon2::default().hash_password(password.as_bytes(), &salt) {
        Ok(h) => Ok(h.to_string()),
        Err(e) => Err(e.to_string()),
    }
}

/// Hash a password with argon2id (recommended default). Every password of
/// at most 0xFFFFFFFF bytes is hashed, and the hash verifies it; a longer one
/// is a crypto error.
pub fn hash_password(password: &str) -> (r: Result<String, AppError>)
    ensures
        r is Ok <==> vstd::utf8::encode_utf8(password@).len() <= 0xFFFF_FFFF,
        r matches Ok(h) ==> argon2_verifies(password@, h@) && phc_parses(h@),
        r matches Err(e) ==> e.kind() == ErrKind::Crypto,
{
    match argon2_hash(password) {
        Ok(h) => Ok(h),
        Err(m) => Err(AppError::Crypto(cat2("argon2 hash: ", m.as_str()))),
    }
}

// ── Login ───────────────────────────────────────────────────────────────────

/// A local account found by username or email.
pub struct LocalAccount {
    pub id: String,
    pub password_hash: Option<String>,
}

/// How a login proceeds after the local lookup.
pub enum LoginPath {
    /// The local password matched: sign in as this user.
    Local(String),
    /// No local password to check: authenticate against LDAP.
    Ldap,
}

/// The outcome of the local step of a login: the id signed in as (`Some`
/// of `Some`), LDAP next (`Some` of `None`), or refused (`None`).
pub open spec fn local_login(local: Option<LocalAccount>, password: Seq<char>) -> Option<Option<Seq<char>>> {
    match local {
        Some(a) => match a.password_hash {
            Some(h) => if argon2_verifies(password, h@) {
                Some(Some(a.id@))
            } else {
                None
            },
            None => Some(None),
        },
        None => Some(None),
    }
}

/// Local password first: an account with a password hash signs in when the
/// password verifies and is refused (401 `invalid credentials`) otherwise;
/// an unknown login or an account without a local password goes to LDAP.
pub fn login_path(local: &Option<LocalAccount>, password: &str) -> (r: Result<LoginPath, AppError>)
    ensures
        match local_login(*local, password@) {
            Some(Some(id)) => r matches Ok(LoginPath::Local(x)) && x@ == id,
            Some(None) => r matches Ok(LoginPath::Ldap),
            None => r matches Err(e) && e.as_pair() == (ErrKind::Unauthorized, "invalid credentials"@),
        },
        match *local {
            Some(a) => match a.password_hash {
                Some(h) => !phc_parses(h@) ==> (r matches Err(e) && e.as_pair() == (
                    ErrKind::Unauthorized,
                    "invalid credentials"@,
                )),
                None => true,
            },
            None => true,
        },
{
    match local {
        Some(a) => match &a.password_hash {
            Some(h) => if verify_password(password, h.as_str()) {
                Ok(LoginPath::Local(a.id.clone()))
            } else {
                Err(unauthorized("invalid credentials"))
            },
            None => Ok(LoginPath::Ldap),
        },
        None => Ok(LoginPath::Ldap),
    }
}

/// A password signs in to the account whose stored hash was made from it:
/// whatever `hash_password` gives for a password, the local login of an
/// account holding that hash with that password succeeds as the account.
pub proof fn hashed_password_signs_in(password: Seq<char>, id: String, hash: String)
    requires
        argon2_verifies(password, hash@),
    ensures
        local_login(Some(LocalAccount { id, password_hash: Some(hash) }), password) == Some(Some(id@)),
{
}

/// Disabled accounts cannot sign in or refresh their session.
pub fn check_account_active(is_active: i8) -> (r: Result<(), AppError>)
    ensures
        r is Ok <==> is_active != 0,
        r matches Err(e) ==> e.as_pair() == (ErrKind::Forbidden, "account disabled"@),
{
    if is_active == 0 {
        return Err(forbidden("account disabled"));
    }
    Ok(())
}

/// The HMAC of a TOTP generator.
#[derive(PartialEq, Eq, Structural, Debug, Clone, Copy)]
pub enum TotpAlgorithm {
    Sha1,
    Sha256,
    Sha512,
}

/// The platform's TOTP rules: six-digit SHA-1 codes over 30-second steps,
/// accepting one step of clock skew either way.
pub struct TotpRules {
    pub algorithm: TotpAlgorithm,
    pub digits: usize,
    pub skew: u8,
    pub step: u64,
}

pub open spec fn platform_totp_rules() -> TotpRules {
    TotpRules { algorithm: TotpAlgorithm::Sha1, digits: 6, skew: 1, step: 30 }
}

pub fn totp_rules() -> (r: TotpRules)
    ensures
        r == platform_totp_rules(),
{
    TotpRules { algorithm: TotpAlgorithm::Sha1, digits: 6, skew: 1, step: 30 }
}

/// A code of exactly `n` ASCII digits.
pub open spec fn digit_code(code: Seq<char>, n: nat) -> bool {
    code.len() == n && forall|i: int| 0 <= i < n ==> '0' <= #[trigger] code[i] <= '9'
}

/// Whether `code` is accepted at Unix time `time` under `rules` for the
/// secret's bytes: it equals the code generated for one of the time steps
/// within the skew.
pub uninterp spec fn totp_matches(rules: TotpRules, secret: Seq<u8>, code: Seq<char>, time: u64) -> bool;

/// The times at which a check under `rules` computes its window without
/// leaving `u64`: at least `skew` whole steps past the epoch, and the last
/// step of the window still fits.
pub open spec fn totp_time_ok(rules: TotpRules, time: u64) -> bool {
    &&& rules.step > 0
    &&& time / rules.step >= rules.skew
    &&& (time / rules.step + rules.skew) * rules.step <= u64::MAX
}

/// Checks a TOTP code at the given Unix time.
///
/// Trusted: `totp_rs::TOTP::new` with the given rules and the secret's
/// bytes refuses digits outside 6..=8 and a secret shorter than 16 bytes
/// (its message is passed on); otherwise `TOTP::check(code, time)` reports
/// a match when the code equals, byte for byte, the code `generate` gives
/// for one of the time steps within the skew: a function of the rules, the
/// secret, the code and the time alone. `generate` writes the code as
/// exactly `digits` decimal digits (zero-padded), so a matching code is such
/// a text. `check` divides by the step, subtracts the skew from the step
/// count and multiplies back by the step; `totp_time_ok` keeps all three
/// within `u64`.
#[verifier::external_body]
fn totp_check_at(rules: &TotpRules, secret: &str, code: &str, time: u64) -> (r: Result<bool, String>)
    requires
        totp_time_ok(*rules, time),
    ensures
        r is Err <==> (rules.digits < 6 || rules.digits > 8 || vstd::utf8::encode_utf8(secret@).len() < 16),
        r matches Ok(m) ==> m == totp_matches(*rules, vstd::utf8::encode_utf8(secret@), code@, time),
        r matches Ok(true) ==> digit_code(code@, rules.digits as nat),
{
    let algorithm = match rules.algorithm {
        TotpAlgorithm::Sha1 => totp_rs::Algorithm::SHA1,
        TotpAlgorithm::Sha256 => totp_rs::Algorithm::SHA256,
        TotpAlgorithm::Sha512 => totp_rs::Algorithm::SHA512,
    };
    match totp_rs::TOTP::new(algorithm, rules.digits, rules.skew, rules.step, secret.as_bytes().to_vec()) {
        Ok(t) => Ok(t.check(code, time)),
        Err(e) => Err(e.to_string()),
    }
}

/// The login gate's answer to a TOTP check: an unusable secret is a crypto
/// error (with the checker's message), a match lets the login through, and
/// a mismatch is 401 `TOTP_INVALID`.
pub fn totp_login_answer(check: Result<bool, String>) -> (r: Result<(), AppError>)
    ensures
        match check {
            Err(m) => r matches Err(e) && e.as_pair() == (ErrKind::Crypto, m@),
            Ok(true) => r is Ok,
            Ok(false) => r matches Err(e) && e.as_pair() == (ErrKind::Unauthorized, "TOTP_INVALID"@),
        },
{
    match check {
        Err(m) => Err(AppError::Crypto(m)),
        Ok(true) => Ok(()),
        Ok(false) => Err(unauthorized("TOTP_INVALID")),
    }
}

/// The setup confirmation's answer to a TOTP check: an unusable secret is a
/// crypto error, a match confirms, a mismatch is 400 `invalid TOTP code`.
pub fn totp_confirmation_answer(check: Result<bool, String>) -> (r: Result<(), AppError>)
    ensures
        match check {
            Err(m) => r matches Err(e) && e.as_pair() == (ErrKind::Crypto, m@),
            Ok(true) => r is Ok,
            Ok(false) => r matches Err(e) && e.as_pair() == (ErrKind::BadRequest, "invalid TOTP code"@),
        },
{
    match check {
        Err(m) => Err(AppError::Crypto(m)),
        Ok(true) => Ok(()),
        Ok(false) => Err(bad_request("invalid TOTP code")),
    }
}

/// Whether the TOTP gate lets a login through at Unix time `now`, given
/// whether the account has TOTP enabled, the code sent, and the (decrypted)
/// secret: without TOTP everyone passes; with it a code is required (401
/// `TOTP_REQUIRED`) and must be accepted under the platform's rules now
/// (401 `TOTP_INVALID`); an unusable secret is a crypto error. The check
/// needs a clock at least one step past the epoch.
pub fn check_login_totp(enabled: bool, code: &Option<String>, secret: &str, now: u64) -> (r: Result<(), AppError>)
    requires
        enabled && code is Some ==> totp_time_ok(platform_totp_rules(), now),
    ensures
        !enabled ==> r is Ok,
        enabled && code is None ==> (r matches Err(e) && e.as_pair() == (ErrKind::Unauthorized, "TOTP_REQUIRED"@)),
        enabled && code is Some && vstd::utf8::encode_utf8(secret@).len() < 16 ==> (r matches Err(e)
            && e.kind() == ErrKind::Crypto),
        enabled && vstd::utf8::encode_utf8(secret@).len() >= 16 ==> (code matches Some(c) ==> ({
            let ok = totp_matches(platform_totp_rules(), vstd::utf8::encode_utf8(secret@), c@, now);
            &&& ok ==> r is Ok
            &&& !ok ==> (r matches Err(e) && e.as_pair() == (ErrKind::Unauthorized, "TOTP_INVALID"@))
        })),
        enabled && r is Ok ==> (code matches Some(c) && digit_code(c@, 6)),
{
    if !enabled {
        return Ok(());
    }
    let c = match code {
        None => return Err(unauthorized("TOTP_REQUIRED")),
        Some(c) => c,
    };
    let rules = totp_rules();
    totp_login_answer(totp_check_at(&rules, secret, c.as_str(), now))
}

/// Confirming a pending TOTP setup at Unix time `now`: the code must be
/// accepted under the platform's rules (400 `invalid TOTP code`).
pub fn check_totp_confirmation(pending: bool, code: &str, secret: &str, now: u64) -> (r: Result<(), AppError>)
    requires
        pending ==> totp_time_ok(platform_totp_rules(), now),
    ensures
        !pending ==> (r matches Err(e) && e.as_pair() == (ErrKind::BadRequest, "no pending TOTP setup"@)),
        pending && vstd::utf8::encode_utf8(secret@).len() < 16 ==> (r matches Err(e) && e.kind()
            == ErrKind::Crypto),
        pending && vstd::utf8::encode_utf8(secret@).len() >= 16 ==> ({
            let ok = totp_matches(platform_totp_rules(), vstd::utf8::encode_utf8(secret@), code@, now);
            &&& ok ==> r is Ok
            &&& !ok ==> (r matches Err(e) && e.as_pair() == (ErrKind::BadRequest, "invalid TOTP code"@))
        }),
        r is Ok ==> pending && digit_code(code@, 6),
{
    if !pending {
        return Err(bad_request("no pending TOTP setup"));
    }
    let rules = totp_rules();
    totp_confirmation_answer(totp_check_at(&rules, secret, code, now))
}

// ── LDAP binding ────────────────────────────────────────────────────────────

/// What the directory says of an authenticated user.
pub struct LdapIdentity {
    pub dn: String,
    pub uid: String,
    pub email: String,
    pub is_admin: bool,
}

/// A local account matching the identity by DN, uid or email.
pub struct LocalMatch {
    pub id: String,
    pub username: String,
    pub email: String,
    pub ldap_dn: Option<String>,
}

/// What an LDAP login does to the local users.
pub enum LdapAction {
    /// Refresh the matched account from the directory; grant global admin
    /// when the directory says so (never revoke it).
    Update { id: String, grant_admin: bool },
    /// Create the account, admin exactly when the directory says so.
    Create { is_admin: bool },
}

/// `str::eq_ignore_ascii_case`.
pub open spec fn eq_ignore_ascii_case(a: Seq<char>, b: Seq<char>) -> bool {
    ascii_lower_seq(a) == ascii_lower_seq(b)
}

fn eq_ignore_case(a: &str, b: &str) -> (r: bool)
    ensures
        r == eq_ignore_ascii_case(a@, b@),
{
    let x = chars_of(a);
    let y = chars_of(b);
    if x.len() != y.len() {
        assert(ascii_lower_seq(a@).len() != ascii_lower_seq(b@).len());
        return false;
    }
    let mut i: usize = 0;
    while i < x.len()
        invariant
            i <= x.len(),
            x.len() == y.len(),
            x@ == a@,
            y@ == b@,
            forall|j: int| 0 <= j < i ==> crate::text::ascii_lower(x@[j]) == crate::text::ascii_lower(y@[j]),
        decreases x.len() - i,
    {
        if ascii_lower_char(x[i]) != ascii_lower_char(y[i]) {
            assert(ascii_lower_seq(a@)[i as int] != ascii_lower_seq(b@)[i as int]);
            return false;
        }
        i = i + 1;
    }
    assert(ascii_lower_seq(a@) =~= ascii_lower_seq(b@));
    true
}

/// An account not yet bound to a DN is bound only when both its username
/// and (case-insensitively) its email match the directory.
pub open spec fn may_bind(m: LocalMatch, id: LdapIdentity) -> bool {
    m.ldap_dn is Some || (m.username@ == id.uid@ && eq_ignore_ascii_case(m.email@, id.email@))
}

/// Decides an LDAP login: several matching local accounts are a conflict;
/// one is refreshed (if it may be bound); none means a new account.
pub fn ldap_binding(matches: &Vec<LocalMatch>, id: &LdapIdentity) -> (r: Result<LdapAction, AppError>)
    ensures
        matches@.len() > 1 ==> (r matches Err(e) && e.as_pair() == (
            ErrKind::Conflict,
            "LDAP identity matches multiple local users; run LDAP sync and resolve conflicts"@,
        )),
        matches@.len() == 1 && !may_bind(matches@[0], *id) ==> (r matches Err(e) && e.as_pair() == (
            ErrKind::Conflict,
            "LDAP uid/mail must match the same local user before binding"@,
        )),
        matches@.len() == 1 && may_bind(matches@[0], *id) ==> (r matches Ok(LdapAction::Update { id: uid, grant_admin })
            && uid@ == matches@[0].id@ && grant_admin == id.is_admin),
        matches@.len() == 0 ==> (r matches Ok(LdapAction::Create { is_admin }) && is_admin == id.is_admin),
{
    if matches.len() > 1 {
        return Err(conflict("LDAP identity matches multiple local users; run LDAP sync and resolve conflicts"));
    }
    if matches.len() == 1 {
        let m = &matches[0];
        if m.ldap_dn.is_none() && (!str_eq(m.username.as_str(), id.uid.as_str()) || !eq_ignore_case(
            m.email.as_str(),
            id.email.as_str(),
        )) {
            return Err(conflict("LDAP uid/mail must match the same local user before binding"));
        }
        return Ok(LdapAction::Update { id: m.id.clone(), grant_admin: id.is_admin });
    }
    Ok(LdapAction::Create { is_admin: id.is_admin })
}

/// The global-admin flag of an account after an LDAP login action.
pub open spec fn admin_after(was_admin: bool, a: LdapAction) -> bool {
    match a {
        LdapAction::Update { grant_admin, .. } => was_admin || grant_admin,
        LdapAction::Create { is_admin } => is_admin,
    }
}

/// LDAP can promote to admin but never demote: an existing account keeps
/// its global-admin flag through any LDAP login, and gains it when the
/// directory says it is an admin.
pub proof fn ldap_never_demotes(matches: Seq<LocalMatch>, id: LdapIdentity, was_admin: bool, a: LdapAction)
    requires
        matches.len() == 1,
        a == (LdapAction::Update { id: matches[0].id, grant_admin: id.is_admin }),
    ensures
        was_admin ==> admin_after(was_admin, a),
        id.is_admin ==> admin_after(was_admin, a),
        admin_after(was_admin, a) == (was_admin || id.is_admin),
{
}

// ── Registration ────────────────────────────────────────────────────────────

/// Whether self-registration is open: always while no user exists (the
/// first administrator registers), afterwards only when the setting
/// `registration_enabled` is `1` or `true`; closed when it is unset.
pub open spec fn registration_open(user_count: i64, setting: Option<Seq<char>>) -> bool {
    user_count == 0 || setting == Some("1"@) || setting == Some("true"@)
}

/// Checks a self-registration request: registration must be open (see
/// `registration_open`), the username 3 to 64 bytes, the password at least
/// 8 bytes, the email must hold `@`.
pub fn validate_registration(
    user_count: i64,
    enabled_setting: &Option<String>,
    body: &RegisterRequest,
) -> (r: Result<(), AppError>)
    ensures
        ({
            let enabled = registration_open(user_count, opt_view(*enabled_setting));
            let ulen = byte_len(body.username@);
            if !enabled {
                r matches Err(e) && e.as_pair() == (ErrKind::Forbidden, "self-registration is disabled"@)
            } else if ulen < 3 || ulen > 64 {
                r matches Err(e) && e.as_pair() == (ErrKind::BadRequest, "username must be 3\u{2013}64 characters"@)
            } else if byte_len(body.password@) < 8 {
                r matches Err(e) && e.as_pair() == (ErrKind::BadRequest, "password must be at least 8 characters"@)
            } else if !body.email@.contains('@') {
                r matches Err(e) && e.as_pair() == (ErrKind::BadRequest, "invalid email"@)
            } else {
                r is Ok
            }
        }),
{
    let (enabled, _) = registration_status(user_count, enabled_setting);
    if !enabled {
        return Err(forbidden("self-registration is disabled"));
    }
    let ulen = str_byte_len(body.username.as_str());
    if ulen < 3 || ulen > 64 {
        return Err(bad_request("username must be 3\u{2013}64 characters"));
    }
    if str_byte_len(body.password.as_str()) < 8 {
        return Err(bad_request("password must be at least 8 characters"));
    }
    let e = chars_of(body.email.as_str());
    match crate::text::find_char(&e, '@') {
        None => {
            proof {
                crate::text::lemma_first_index(e@, '@');
                if body.email@.contains('@') {
                    let j = choose|j: int| 0 <= j < body.email@.len() && body.email@[j] == '@';
                    assert(e@[j] == '@');
                }
            }
            Err(bad_request("invalid email"))
        },
        Some(i) => {
            proof {
                crate::text::lemma_first_index(e@, '@');
                assert(body.email@[i as int] == '@');
            }
            Ok(())
        },
    }
}

/// A username or email that is already taken.
pub fn check_not_registered(existing: i64) -> (r: Result<(), AppError>)
    ensures
        r is Ok <==> existing <= 0,
        r matches Err(e) ==> e.as_pair() == (ErrKind::Conflict, "username or email already registered"@),
{
    if existing > 0 {
        return Err(conflict("username or email already registered"));
    }
    Ok(())
}

/// The standing of a newly registered account.
#[derive(PartialEq, Eq, Structural, Debug, Clone, Copy)]
pub struct NewAccount {
    pub is_active: bool,
    pub is_global_admin: bool,
    pub awaiting_approval: bool,
}

/// The first registered user becomes an active global admin; later users
/// are plain users, inactive until approved when the platform requires
/// approval (setting `registration_require_approval` is `1`).
pub open spec fn new_account_spec(user_count: i64, approval_setting: Option<Seq<char>>) -> NewAccount {
    if user_count == 0 {
        NewAccount { is_active: true, is_global_admin: true, awaiting_approval: false }
    } else {
        let approval = approval_setting == Some("1"@);
        NewAccount { is_active: !approval, is_global_admin: false, awaiting_approval: approval }
    }
}

pub fn new_account(user_count: i64, approval_setting: &Option<String>) -> (a: NewAccount)
    ensures
        a == new_account_spec(user_count, opt_view(*approval_setting)),
{
    if user_count == 0 {
        NewAccount { is_active: true, is_global_admin: true, awaiting_approval: false }
    } else {
        let approval = match approval_setting {
            Some(v) => str_eq(v.as_str(), "1"),
            None => false,
        };
        NewAccount { is_active: !approval, is_global_admin: false, awaiting_approval: approval }
    }
}

/// Only the very first account is made a global admin by registration, and
/// it is always active.
pub proof fn only_first_user_is_admin(user_count: i64, approval_setting: Option<Seq<char>>)
    ensures
        new_account_spec(user_count, approval_setting).is_global_admin <==> user_count == 0,
        user_count == 0 ==> new_account_spec(user_count, approval_setting).is_active,
        new_account_spec(user_count, approval_setting).is_active <==> !new_account_spec(
            user_count,
            approval_setting,
        ).awaiting_approval,
{
}

/// The message a successful registration is answered with.
pub fn registration_message(a: &NewAccount) -> (m: String)
    ensures
        a.awaiting_approval ==> m@ == "\u{6ce8}\u{518c}\u{6210}\u{529f}\u{ff0c}\u{7b49}\u{5f85}\u{7ba1}\u{7406}\u{5458}\u{5ba1}\u{6279}\u{540e}\u{5373}\u{53ef}\u{767b}\u{5f55}"@,
        !a.awaiting_approval ==> m@ == "\u{6ce8}\u{518c}\u{6210}\u{529f}"@,
{
    if a.awaiting_approval {
        owned("\u{6ce8}\u{518c}\u{6210}\u{529f}\u{ff0c}\u{7b49}\u{5f85}\u{7ba1}\u{7406}\u{5458}\u{5ba1}\u{6279}\u{540e}\u{5373}\u{53ef}\u{767b}\u{5f55}")
    } else {
        owned("\u{6ce8}\u{518c}\u{6210}\u{529f}")
    }
}

/// `GET /auth/registration-status`: open on first boot (no users yet);
/// afterwards only when `registration_enabled` is `1` or `true` (closed when
/// unset). Gives (enabled, first boot).
pub fn registration_status(user_count: i64, setting: &Option<String>) -> (r: (bool, bool))
    ensures
        r == (registration_open(user_count, opt_view(*setting)), user_count == 0),
{
    if user_count == 0 {
        return (true, true);
    }
    let enabled = match setting {
        Some(v) => str_eq(v.as_str(), "1") || str_eq(v.as_str(), "true"),
        None => false,
    };
    (enabled, false)
}

// ── Password reset and refresh ──────────────────────────────────────────────

/// A fresh reset token: 32 random bytes as 64 lowercase hexadecimal
/// digits (built as a cluster's join token is).
pub fn generate_secure_token() -> (t: String)
    ensures
        t@.len() == 64,
        forall|i: int| 0 <= i < 64 ==> crate::clusters::is_lower_hex(#[trigger] t@[i]),
{
    crate::clusters::generate_k3s_token()
}

/// A new password must be at least 8 bytes long.
pub fn check_new_password(password: &str) -> (r: Result<(), AppError>)
    ensures
        r is Ok <==> byte_len(password@) >= 8,
        r matches Err(e) ==> e.as_pair() == (ErrKind::BadRequest, "password must be at least 8 characters"@),
{
    if str_byte_len(password) < 8 {
        return Err(bad_request("password must be at least 8 characters"));
    }
    Ok(())
}

/// The state of a presented reset token.
pub struct ResetTokenState {
    pub found: bool,
    pub used: bool,
    pub expired: bool,
}

/// A reset token must exist, be unused and unexpired, checked in that order.
pub fn check_reset_token(t: &ResetTokenState) -> (r: Result<(), AppError>)
    ensures
        !t.found ==> (r matches Err(e) && e.as_pair() == (ErrKind::BadRequest, "invalid or expired reset token"@)),
        t.found && t.used ==> (r matches Err(e) && e.as_pair() == (ErrKind::BadRequest, "reset token already used"@)),
        t.found && !t.used && t.expired ==> (r matches Err(e) && e.as_pair() == (ErrKind::BadRequest, "reset token expired"@)),
        t.found && !t.used && !t.expired ==> r is Ok,
{
    if !t.found {
        return Err(bad_request("invalid or expired reset token"));
    }
    if t.used {
        return Err(bad_request("reset token already used"));
    }
    if t.expired {
        return Err(bad_request("reset token expired"));
    }
    Ok(())
}

/// A refresh token must exist and be unexpired; the account must still be
/// active.
pub fn check_refresh(found: bool, expired: bool, user_active: i8) -> (r: Result<(), AppError>)
    ensures
        !found ==> (r matches Err(e) && e.as_pair() == (ErrKind::Unauthorized, "invalid refresh token"@)),
        found && expired ==> (r matches Err(e) && e.as_pair() == (ErrKind::Unauthorized, "refresh token expired"@)),
        found && !expired && user_active == 0 ==> (r matches Err(e) && e.as_pair() == (ErrKind::Forbidden, "account disabled"@)),
        found && !expired && user_active != 0 ==> r is Ok,
{
    if !found {
        return Err(unauthorized("invalid refresh token"));
    }
    if expired {
        return Err(unauthorized("refresh token expired"));
    }
    check_account_active(user_active)
}

/// The link of a reset mail: `<frontend>/reset-password?token=<token>`,
/// the frontend defaulting to `http://localhost:3000`.
pub fn reset_url(frontend_url: &Option<String>, token: &str) -> (u: String)
    ensures
        u@ == (match opt_view(*frontend_url) {
            Some(f) => f,
            None => "http://localhost:3000"@,
        }) + "/reset-password?token="@ + token@,
{
    match frontend_url {
        Some(f) => cat3(f.as_str(), "/reset-password?token=", token),
        None => cat3("http://localhost:3000", "/reset-password?token=", token),
    }
}

} // verus!
