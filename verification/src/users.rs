//! User administration by global admins.

use vstd::prelude::*;
use crate::access::AuthUser;
use crate::error::{bad_request, AppError, ErrKind};
use crate::text::{chars_of, find_char, has_non_space, lemma_first_index, opt_view, str_eq, trim_str};
use crate::auth::byte_len;

verus! {

/// A user as the admin list shows it.
pub struct UserRow {
    pub id: String,
    pub username: String,
    pub email: String,
    pub display_name: Option<String>,
    pub ldap_uid: Option<u32>,
    pub ldap_gid: Option<u32>,
    pub is_global_admin: bool,
    pub is_active: bool,
}

pub struct ListQuery {
    pub search: Option<String>,
    pub is_active: Option<bool>,
    pub page: Option<u32>,
    pub per_page: Option<u32>,
}

pub struct CreateUserRequest {
    pub username: String,
    pub email: String,
    pub password: String,
    pub display_name: Option<String>,
    pub is_global_admin: Option<bool>,
}

pub struct UpdateUserRequest {
    pub username: Option<String>,
    pub display_name: Option<String>,
    pub email: Option<String>,
    pub is_active: Option<bool>,
    pub is_global_admin: Option<bool>,
}

pub struct AdminResetPasswordRequest {
    pub new_password: String,
}

/// An admin-created account must have a password of at least 8 bytes; it
/// is a plain user unless marked admin. Gives the admin flag to store.
pub fn prepare_user(body: &CreateUserRequest) -> (r: Result<bool, AppError>)
    ensures
        byte_len(body.password@) < 8 ==> (r matches Err(e) && e.as_pair() == (
            ErrKind::BadRequest,
            "password must be at least 8 characters"@,
        )),
        byte_len(body.password@) >= 8 ==> r == Ok::<bool, AppError>(match body.is_global_admin {
            Some(b) => b,
            None => false,
        }),
{
    crate::auth::check_new_password(body.password.as_str())?;
    Ok(match body.is_global_admin {
        Some(b) => b,
        None => false,
    })
}

fn has_at(s: &str) -> (b: bool)
    ensures
        b == s@.contains('@'),
{
    let v = chars_of(s);
    proof {
        lemma_first_index(v@, '@');
    }
    match find_char(&v, '@') {
        Some(i) => {
            assert(s@[i as int] == '@');
            true
        },
        None => {
            proof {
                if s@.contains('@') {
                    let j = choose|j: int| 0 <= j < s@.len() && s@[j] == '@';
                    assert(v@[j] == '@');
                }
            }
            false
        },
    }
}

/// The checks of `PUT /admin/users/:id` before anything is looked up: an
/// admin cannot remove their own admin flag, a new username must not be
/// blank, and a new email must hold `@`.
pub fn check_user_update(auth: &AuthUser, target_id: &str, body: &UpdateUserRequest) -> (r: Result<(), AppError>)
    ensures
        target_id@ == auth.user_id@ && body.is_global_admin == Some(false) ==> (r matches Err(e)
            && e.as_pair() == (ErrKind::BadRequest, "cannot remove your own admin flag"@)),
        !(target_id@ == auth.user_id@ && body.is_global_admin == Some(false)) ==> ({
            let blank = match body.username {
                Some(u) => !has_non_space(u@),
                None => false,
            };
            let bad_email = match body.email {
                Some(m) => !m@.contains('@'),
                None => false,
            };
            &&& blank ==> (r matches Err(e) && e.as_pair() == (ErrKind::BadRequest, "username is required"@))
            &&& !blank && bad_email ==> (r matches Err(e) && e.as_pair() == (ErrKind::BadRequest, "invalid email"@))
            &&& !blank && !bad_email ==> r is Ok
        }),
{
    if str_eq(target_id, auth.user_id.as_str()) {
        if body.is_global_admin == Some(false) {
            return Err(bad_request("cannot remove your own admin flag"));
        }
    }
    if let Some(u) = &body.username {
        if trim_str(u.as_str()).len() == 0 {
            return Err(bad_request("username is required"));
        }
    }
    if let Some(m) = &body.email {
        if !has_at(m.as_str()) {
            return Err(bad_request("invalid email"));
        }
    }
    Ok(())
}

/// What a user update asks of the directory, for an LDAP-bound account:
/// rename its entry when the username changes, and update the directory
/// user when any of username, display name or email is given.
pub fn ldap_sync_needed(bound: bool, current_username: &str, body: &UpdateUserRequest) -> (r: (bool, bool))
    ensures
        r.0 == (bound && match body.username {
            Some(u) => u@ != current_username@,
            None => false,
        }),
        r.1 == (bound && (body.username is Some || body.display_name is Some || body.email is Some)),
{
    let rename = bound && match &body.username {
        Some(u) => !str_eq(u.as_str(), current_username),
        None => false,
    };
    let update = bound && (body.username.is_some() || body.display_name.is_some() || body.email.is_some());
    (rename, update)
}

/// Deactivating an account revokes its sessions at once.
pub fn revokes_sessions(body: &UpdateUserRequest) -> (b: bool)
    ensures
        b == (body.is_active == Some(false)),
{
    body.is_active == Some(false)
}

/// An admin cannot delete their own account.
pub fn check_user_delete(auth: &AuthUser, target_id: &str) -> (r: Result<(), AppError>)
    ensures
        r is Ok <==> target_id@ != auth.user_id@,
        r matches Err(e) ==> e.as_pair() == (ErrKind::BadRequest, "cannot delete yourself"@),
{
    if str_eq(target_id, auth.user_id.as_str()) {
        return Err(bad_request("cannot delete yourself"));
    }
    Ok(())
}

} // verus!
