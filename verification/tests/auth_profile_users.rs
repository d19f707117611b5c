use base64::Engine;
use quickstack::access::AuthUser;
use quickstack::auth::{
    check_account_active, check_login_totp, check_new_password, check_not_registered, check_refresh, check_reset_token,
    check_totp_confirmation, generate_secure_token, hash_password, ldap_binding, login_path, new_account, registration_message,
    registration_status, reset_url, totp_confirmation_answer, totp_login_answer, totp_rules, validate_registration,
    TotpAlgorithm, LdapAction, LdapIdentity, LocalAccount, LocalMatch,
    LoginPath, RegisterRequest, ResetTokenState,
};
use quickstack::error::AppError;
use quickstack::profile::{
    change_password, compute_ssh_fingerprint, fingerprint_text, prepare_ssh_key, prepare_ssh_key_update, ssh_key_fields,
    ssh_key_written, update_profile,
    AddSshKeyRequest, UpdateSshKeyRequest,
};
use quickstack::users::{
    check_user_delete, check_user_update, ldap_sync_needed, prepare_user, revokes_sessions, CreateUserRequest,
    UpdateUserRequest,
};
use sha2::Digest;

fn user(id: &str, admin: bool) -> AuthUser {
    AuthUser { user_id: id.to_string(), username: id.to_string(), is_global_admin: admin }
}

fn bad(r: Result<(), AppError>) -> String {
    match r {
        Err(AppError::BadRequest(m)) => m,
        _ => panic!("expected 400"),
    }
}

#[test]
fn password_hash_round_trip_through_login() {
    let h = hash_password("correct horse").unwrap();
    assert!(h.starts_with("$argon2"));
    assert_ne!(h, "correct horse");
    let acct = Some(LocalAccount { id: "u1".to_string(), password_hash: Some(h) });
    assert!(matches!(login_path(&acct, "correct horse"), Ok(LoginPath::Local(id)) if id == "u1"));
    match login_path(&acct, "wrong horse") {
        Err(AppError::Unauthorized(m)) => assert_eq!(m, "invalid credentials"),
        _ => panic!(),
    }
    let no_hash = Some(LocalAccount { id: "u2".to_string(), password_hash: None });
    assert!(matches!(login_path(&no_hash, "x"), Ok(LoginPath::Ldap)));
    assert!(matches!(login_path(&None, "x"), Ok(LoginPath::Ldap)));
    let broken = Some(LocalAccount { id: "u3".to_string(), password_hash: Some("not-a-phc-string".to_string()) });
    assert!(matches!(login_path(&broken, "not-a-phc-string"), Err(AppError::Unauthorized(m)) if m == "invalid credentials"));
}

#[test]
fn account_gates() {
    assert!(check_account_active(1).is_ok());
    match check_account_active(0) {
        Err(AppError::Forbidden(m)) => assert_eq!(m, "account disabled"),
        _ => panic!(),
    }
    assert!(check_refresh(true, false, 1).is_ok());
    assert!(matches!(check_refresh(false, false, 1), Err(AppError::Unauthorized(m)) if m == "invalid refresh token"));
    assert!(matches!(check_refresh(true, true, 1), Err(AppError::Unauthorized(m)) if m == "refresh token expired"));
    assert!(matches!(check_refresh(true, false, 0), Err(AppError::Forbidden(m)) if m == "account disabled"));
}

#[test]
fn totp_gate() {
    let now = 1_700_000_000u64;
    assert!(check_login_totp(false, &None, "", now).is_ok());
    assert!(matches!(check_login_totp(true, &None, "x", now), Err(AppError::Unauthorized(m)) if m == "TOTP_REQUIRED"));
    assert!(matches!(check_login_totp(true, &Some("123456".to_string()), "short", now), Err(AppError::Crypto(_))));
    let secret = "0123456789abcdefXYZ";
    let totp = totp_rs::TOTP::new(totp_rs::Algorithm::SHA1, 6, 1, 30, secret.as_bytes().to_vec()).unwrap();
    let code = totp.generate(now);
    assert!(check_login_totp(true, &Some(code.clone()), secret, now).is_ok());
    // one step of skew either way is accepted, two are not
    assert!(check_login_totp(true, &Some(totp.generate(now - 30)), secret, now).is_ok());
    assert!(check_totp_confirmation(true, &code, secret, now).is_ok());
    assert!(matches!(check_totp_confirmation(false, &code, secret, now), Err(AppError::BadRequest(m)) if m == "no pending TOTP setup"));
    assert!(matches!(check_totp_confirmation(true, "12", secret, now), Err(AppError::BadRequest(m)) if m == "invalid TOTP code"));
    let far = totp.generate(now - 600);
    if far != code && far != totp.generate(now - 30) && far != totp.generate(now + 30) {
        assert!(matches!(check_login_totp(true, &Some(far), secret, now), Err(AppError::Unauthorized(m)) if m == "TOTP_INVALID"));
    }
}

#[test]
fn totp_answers_and_rules() {
    let r = totp_rules();
    assert_eq!((r.algorithm, r.digits, r.skew, r.step), (TotpAlgorithm::Sha1, 6, 1, 30));
    assert!(totp_login_answer(Ok(true)).is_ok());
    assert!(matches!(totp_login_answer(Ok(false)), Err(AppError::Unauthorized(m)) if m == "TOTP_INVALID"));
    assert!(matches!(totp_login_answer(Err("bad secret".to_string())), Err(AppError::Crypto(m)) if m == "bad secret"));
    assert!(totp_confirmation_answer(Ok(true)).is_ok());
    assert!(matches!(totp_confirmation_answer(Ok(false)), Err(AppError::BadRequest(m)) if m == "invalid TOTP code"));
    assert!(matches!(totp_confirmation_answer(Err("x".to_string())), Err(AppError::Crypto(m)) if m == "x"));
}

fn identity(admin: bool) -> LdapIdentity {
    LdapIdentity {
        dn: "uid=bob,ou=people,dc=x".to_string(),
        uid: "bob".to_string(),
        email: "Bob@Example.com".to_string(),
        is_admin: admin,
    }
}

fn local(username: &str, email: &str, dn: Option<&str>) -> LocalMatch {
    LocalMatch {
        id: "u7".to_string(),
        username: username.to_string(),
        email: email.to_string(),
        ldap_dn: dn.map(|d| d.to_string()),
    }
}

#[test]
fn ldap_login_binding() {
    assert!(matches!(ldap_binding(&vec![], &identity(true)), Ok(LdapAction::Create { is_admin: true })));
    let same = vec![local("bob", "bob@example.com", None)];
    assert!(matches!(
        ldap_binding(&same, &identity(false)),
        Ok(LdapAction::Update { id, grant_admin: false }) if id == "u7"
    ));
    let other_mail = vec![local("bob", "robert@example.com", None)];
    assert!(matches!(
        ldap_binding(&other_mail, &identity(false)),
        Err(AppError::Conflict(m)) if m == "LDAP uid/mail must match the same local user before binding"
    ));
    let bound = vec![local("someone", "else@x", Some("uid=bob"))];
    assert!(matches!(ldap_binding(&bound, &identity(true)), Ok(LdapAction::Update { grant_admin: true, .. })));
    let two = vec![local("bob", "a@b", None), local("bob2", "c@d", None)];
    assert!(matches!(
        ldap_binding(&two, &identity(false)),
        Err(AppError::Conflict(m)) if m == "LDAP identity matches multiple local users; run LDAP sync and resolve conflicts"
    ));
}

fn register(username: &str, email: &str, password: &str) -> RegisterRequest {
    RegisterRequest {
        username: username.to_string(),
        email: email.to_string(),
        password: password.to_string(),
        display_name: None,
    }
}

#[test]
fn self_registration() {
    assert!(validate_registration(0, &None, &register("bob", "b@x", "password1")).is_ok());
    assert!(validate_registration(4, &Some("true".to_string()), &register("bob", "b@x", "password1")).is_ok());
    assert!(validate_registration(4, &Some("1".to_string()), &register("bob", "b@x", "password1")).is_ok());
    // once a user exists, an unset setting keeps registration closed
    assert!(matches!(
        validate_registration(4, &None, &register("bob", "b@x", "password1")),
        Err(AppError::Forbidden(m)) if m == "self-registration is disabled"
    ));
    assert!(matches!(
        validate_registration(4, &Some("0".to_string()), &register("bob", "b@x", "password1")),
        Err(AppError::Forbidden(m)) if m == "self-registration is disabled"
    ));
    assert_eq!(
        bad(validate_registration(0, &None, &register("bo", "b@x", "password1"))),
        "username must be 3\u{2013}64 characters"
    );
    assert_eq!(
        bad(validate_registration(0, &None, &register("bob", "b@x", "short"))),
        "password must be at least 8 characters"
    );
    assert_eq!(bad(validate_registration(0, &None, &register("bob", "bx", "password1"))), "invalid email");
    // lengths count UTF-8 bytes: two two-byte letters are four bytes
    assert!(validate_registration(0, &None, &register("\u{e9}\u{e9}", "b@x", "password1")).is_ok());
    assert!(check_not_registered(0).is_ok());
    assert!(matches!(check_not_registered(1), Err(AppError::Conflict(m)) if m == "username or email already registered"));
}

#[test]
fn first_user_is_the_only_automatic_admin() {
    let first = new_account(0, &Some("1".to_string()));
    assert!(first.is_global_admin && first.is_active && !first.awaiting_approval);
    let later = new_account(5, &Some("1".to_string()));
    assert!(!later.is_global_admin && !later.is_active && later.awaiting_approval);
    let open = new_account(5, &None);
    assert!(!open.is_global_admin && open.is_active && !open.awaiting_approval);
    assert_eq!(registration_message(&later), "注册成功，等待管理员审批后即可登录");
    assert_eq!(registration_message(&open), "注册成功");
    assert_eq!(registration_status(0, &None), (true, true));
    assert_eq!(registration_status(3, &Some("true".to_string())), (true, false));
    assert_eq!(registration_status(3, &None), (false, false));
}

#[test]
fn password_reset() {
    assert!(check_new_password("12345678").is_ok());
    assert_eq!(bad(check_new_password("1234567")), "password must be at least 8 characters");
    let t = |found, used, expired| ResetTokenState { found, used, expired };
    assert_eq!(bad(check_reset_token(&t(false, false, false))), "invalid or expired reset token");
    assert_eq!(bad(check_reset_token(&t(true, true, true))), "reset token already used");
    assert_eq!(bad(check_reset_token(&t(true, false, true))), "reset token expired");
    assert!(check_reset_token(&t(true, false, false)).is_ok());
    assert_eq!(reset_url(&None, "tok"), "http://localhost:3000/reset-password?token=tok");
    assert_eq!(reset_url(&Some("https://qs.io".to_string()), "t"), "https://qs.io/reset-password?token=t");
}

#[test]
fn ssh_key_fingerprint() {
    let key = "  ssh-ed25519 AAAA user@host  ";
    assert_eq!(ssh_key_fields(key), Some(("ssh-ed25519".to_string(), "AAAA".to_string())));
    assert_eq!(ssh_key_fields("nospace"), None);
    let digest = sha2::Sha256::digest([0u8, 0, 0]);
    let b64 = base64::engine::general_purpose::STANDARD_NO_PAD.encode(digest);
    let expected = format!("SHA256:{} (ssh-ed25519)", b64);
    assert_eq!(compute_ssh_fingerprint(key), Some(expected.clone()));
    assert_eq!(compute_ssh_fingerprint("ssh-rsa !!!"), None);
    assert_eq!(fingerprint_text("abc", "ssh-rsa"), "SHA256:abc (ssh-rsa)");
    let k = prepare_ssh_key(&AddSshKeyRequest { name: " laptop ".to_string(), public_key: key.to_string() }).unwrap();
    assert_eq!(k.name, "laptop");
    assert_eq!(k.public_key, "ssh-ed25519 AAAA user@host");
    assert_eq!(k.fingerprint, expected);
    assert!(matches!(
        prepare_ssh_key(&AddSshKeyRequest { name: " ".to_string(), public_key: key.to_string() }),
        Err(AppError::BadRequest(m)) if m == "key name is required"
    ));
    assert!(matches!(
        prepare_ssh_key(&AddSshKeyRequest { name: "x".to_string(), public_key: "garbage".to_string() }),
        Err(AppError::BadRequest(m)) if m == "invalid SSH public key format"
    ));
    let (n, p, f) = prepare_ssh_key_update(&UpdateSshKeyRequest { name: Some(" new ".to_string()), public_key: None }).unwrap();
    assert_eq!((n.as_deref(), p, f), (Some("new"), None, None));
}

fn update(username: Option<&str>, email: Option<&str>, active: Option<bool>, admin: Option<bool>) -> UpdateUserRequest {
    UpdateUserRequest {
        username: username.map(|s| s.to_string()),
        display_name: None,
        email: email.map(|s| s.to_string()),
        is_active: active,
        is_global_admin: admin,
    }
}

#[test]
fn user_administration() {
    let body = CreateUserRequest {
        username: "c".to_string(),
        email: "c@x".to_string(),
        password: "password".to_string(),
        display_name: None,
        is_global_admin: None,
    };
    assert_eq!(prepare_user(&body).unwrap(), false);
    let admin = user("a1", true);
    assert_eq!(bad(check_user_update(&admin, "a1", &update(None, None, None, Some(false)))), "cannot remove your own admin flag");
    assert!(check_user_update(&admin, "u2", &update(None, None, None, Some(false))).is_ok());
    assert_eq!(bad(check_user_update(&admin, "u2", &update(Some("  "), None, None, None))), "username is required");
    assert_eq!(bad(check_user_update(&admin, "u2", &update(None, Some("nope"), None, None))), "invalid email");
    assert_eq!(ldap_sync_needed(true, "bob", &update(Some("rob"), None, None, None)), (true, true));
    assert_eq!(ldap_sync_needed(true, "bob", &update(Some("bob"), None, None, None)), (false, true));
    assert_eq!(ldap_sync_needed(false, "bob", &update(Some("rob"), None, None, None)), (false, false));
    assert!(revokes_sessions(&update(None, None, Some(false), None)));
    assert!(!revokes_sessions(&update(None, None, Some(true), None)));
    assert_eq!(bad(check_user_delete(&admin, "a1")), "cannot delete yourself");
    assert!(check_user_delete(&admin, "u2").is_ok());
}

#[test]
fn reset_tokens_are_hex() {
    let a = generate_secure_token();
    let b = generate_secure_token();
    assert_eq!(a.len(), 64);
    assert!(a.chars().all(|c| c.is_ascii_digit() || ('a'..='f').contains(&c)));
    assert_ne!(a, b);
}

#[test]
fn ssh_key_writes_and_admin_managed_fields() {
    assert!(ssh_key_written(false, 1, "k1").is_ok());
    match ssh_key_written(true, 0, "k1") {
        Err(AppError::Conflict(m)) => assert_eq!(m, "this SSH key is already added to your account"),
        _ => panic!("a duplicate key is refused"),
    }
    match ssh_key_written(false, 0, "k1") {
        Err(AppError::NotFound(m)) => assert_eq!(m, "ssh key k1"),
        _ => panic!("a key of another user is not found"),
    }
    match update_profile() {
        Err(AppError::Forbidden(m)) => {
            assert_eq!(m, "profile identity fields are admin-managed; users may only manage SSH keys")
        }
        _ => panic!("profile edits are refused"),
    }
    match change_password() {
        Err(AppError::Forbidden(m)) => assert_eq!(m, "password changes are admin-managed; users may only manage SSH keys"),
        _ => panic!("password changes are refused"),
    }
}
