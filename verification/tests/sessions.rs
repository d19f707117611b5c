use quickstack::error::AppError;
use quickstack::sessions::{new_refresh_token, redeem_reset_token, rotate_refresh, RefreshRow, ResetTokenRow, SessionRow};

fn session(user: &str, hash: &str) -> SessionRow {
    SessionRow { user_id: user.to_string(), token_hash: hash.to_string() }
}

#[test]
fn a_reset_token_works_once_and_ends_sessions() {
    let mut tokens = vec![
        ResetTokenRow { token_hash: "h1".to_string(), user_id: "u1".to_string(), used: false, expires_at: 1000 },
        ResetTokenRow { token_hash: "h2".to_string(), user_id: "u2".to_string(), used: false, expires_at: 10 },
    ];
    let mut sessions = vec![session("u1", "s1"), session("u2", "s2"), session("u1", "s3")];
    assert_eq!(redeem_reset_token(&mut tokens, &mut sessions, "h1", 500).unwrap(), "u1");
    assert!(tokens[0].used);
    assert_eq!(sessions.len(), 1);
    assert_eq!(sessions[0].user_id, "u2");
    match redeem_reset_token(&mut tokens, &mut sessions, "h1", 600) {
        Err(AppError::BadRequest(m)) => assert_eq!(m, "reset token already used"),
        _ => panic!("a used token is refused"),
    }
    match redeem_reset_token(&mut tokens, &mut sessions, "h2", 500) {
        Err(AppError::BadRequest(m)) => assert_eq!(m, "reset token expired"),
        _ => panic!("an expired token is refused"),
    }
    match redeem_reset_token(&mut tokens, &mut sessions, "nope", 500) {
        Err(AppError::BadRequest(m)) => assert_eq!(m, "invalid or expired reset token"),
        _ => panic!("an unknown token is refused"),
    }
    assert_eq!(sessions.len(), 1);
}

#[test]
fn refresh_tokens_rotate() {
    let mut rows = vec![
        RefreshRow { token_hash: "a".to_string(), user_id: "u1".to_string(), expires_at: 1000 },
        RefreshRow { token_hash: "b".to_string(), user_id: "u2".to_string(), expires_at: 10 },
    ];
    assert_eq!(rotate_refresh(&mut rows, "a", 500, 1, "c", 2000).unwrap(), "u1");
    assert_eq!(rows.len(), 2);
    assert_eq!((rows[1].token_hash.as_str(), rows[1].user_id.as_str(), rows[1].expires_at), ("c", "u1", 2000));
    match rotate_refresh(&mut rows, "a", 600, 1, "d", 2000) {
        Err(AppError::Unauthorized(m)) => assert_eq!(m, "invalid refresh token"),
        _ => panic!("a rotated token is refused"),
    }
    match rotate_refresh(&mut rows, "b", 500, 1, "d", 2000) {
        Err(AppError::Unauthorized(m)) => assert_eq!(m, "refresh token expired"),
        _ => panic!("an expired token is refused"),
    }
    assert_eq!(rows.len(), 1);
    match rotate_refresh(&mut rows, "c", 600, 0, "d", 2000) {
        Err(AppError::Forbidden(m)) => assert_eq!(m, "account disabled"),
        _ => panic!("a disabled account cannot refresh"),
    }
    assert!(rows.is_empty());
    let t = new_refresh_token();
    assert_eq!(t.len(), 38);
    assert!(t.starts_with("qs_rt_"));
    assert!(t[6..].chars().all(|c| c.is_ascii_hexdigit() && !c.is_ascii_uppercase()));
}
