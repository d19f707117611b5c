//! Who is asking: the authenticated caller and the global-admin gate.

use vstd::prelude::*;
use crate::error::{forbidden, AppError, ErrKind};
use crate::text::{chars_of, str_eq};

verus! {

/// The authenticated caller of a control-plane request.
pub struct AuthUser {
    pub user_id: String,
    pub username: String,
    pub is_global_admin: bool,
}

/// Routes reserved to global administrators refuse everyone else with
/// 403 `global admin required`.
pub fn require_admin(auth: &AuthUser) -> (r: Result<(), AppError>)
    ensures
        auth.is_global_admin <==> r is Ok,
        r matches Err(e) ==> e.as_pair() == (ErrKind::Forbidden, "global admin required"@),
{
    if !auth.is_global_admin {
        return Err(forbidden("global admin required"));
    }
    Ok(())
}

/// The service-endpoint routes' gate: 403 `admin only` for non-admins.
pub fn admin_only(auth: &AuthUser) -> (r: Result<(), AppError>)
    ensures
        auth.is_global_admin <==> r is Ok,
        r matches Err(e) ==> e.as_pair() == (ErrKind::Forbidden, "admin only"@),
{
    if !auth.is_global_admin {
        return Err(forbidden("admin only"));
    }
    Ok(())
}

/// The routes served without sign-in: login, registration and its status,
/// the password-reset pair, the app deploy webhooks (`/webhooks/<id>`,
/// checked by their id), the Stripe webhook (checked by its signature) and
/// the maintenance page. Every other route sits behind authentication.
pub open spec fn public_route(method: Seq<char>, path: Seq<char>) -> bool {
    ||| method == "POST"@ && path == "/auth/login"@
    ||| method == "POST"@ && path == "/auth/register"@
    ||| method == "GET"@ && path == "/auth/registration-status"@
    ||| method == "POST"@ && path == "/auth/forgot-password"@
    ||| method == "POST"@ && path == "/auth/reset-password"@
    ||| method == "POST"@ && webhook_path(path)
    ||| method == "POST"@ && path == "/stripe/webhook"@
    ||| method == "GET"@ && path == "/_qs/maintenance"@
}

/// `/webhooks/` followed by one non-empty path segment.
pub open spec fn webhook_path(path: Seq<char>) -> bool {
    &&& path.len() > 10
    &&& path.subrange(0, 10) == "/webhooks/"@
    &&& forall|i: int| 10 <= i < path.len() ==> #[trigger] path[i] != '/'
}

fn is_webhook_path(path: &str) -> (b: bool)
    ensures
        b == webhook_path(path@),
{
    let c = chars_of(path);
    let prefix = chars_of("/webhooks/");
    proof {
        reveal_strlit("/webhooks/");
    }
    assert(prefix@.len() == 10);
    if c.len() <= 10 {
        return false;
    }
    let mut i: usize = 0;
    while i < 10
        invariant
            i <= 10 < c@.len(),
            prefix@ == "/webhooks/"@,
            prefix@.len() == 10,
            c@ == path@,
            forall|j: int| 0 <= j < i ==> c@[j] == prefix@[j],
        decreases 10 - i,
    {
        if c[i] != prefix[i] {
            assert(c@.subrange(0, 10)[i as int] != "/webhooks/"@[i as int]);
            return false;
        }
        i = i + 1;
    }
    assert(c@.subrange(0, 10) =~= "/webhooks/"@);
    let mut k: usize = 10;
    while k < c.len()
        invariant
            10 <= k <= c@.len(),
            c@ == path@,
            forall|j: int| 10 <= j < k ==> c@[j] != '/',
        decreases c.len() - k,
    {
        if c[k] == '/' {
            return false;
        }
        k = k + 1;
    }
    true
}

/// Whether a request may be served without sign-in (see `public_route`).
pub fn is_public_route(method: &str, path: &str) -> (b: bool)
    ensures
        b == public_route(method@, path@),
{
    let post = str_eq(method, "POST");
    let get = str_eq(method, "GET");
    (post && str_eq(path, "/auth/login")) || (post && str_eq(path, "/auth/register")) || (get && str_eq(
        path,
        "/auth/registration-status",
    )) || (post && str_eq(path, "/auth/forgot-password")) || (post && str_eq(path, "/auth/reset-password"))
        || (post && is_webhook_path(path)) || (post && str_eq(path, "/stripe/webhook")) || (get && str_eq(
        path,
        "/_qs/maintenance",
    ))
}

} // verus!
