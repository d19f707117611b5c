//! Proxy-manager instances: the API user a manager is reached with, the
//! refusal of an unreachable one, and when the active client is reloaded.

use vstd::prelude::*;
use crate::error::{AppError, ErrKind};
use crate::text::{cat2, cat3, owned};

verus! {

/// `POST /admin/proxy-managers`.
pub struct CreateProxyManagerRequest {
    pub name: String,
    pub host: String,
    pub api_base_url: String,
    pub api_username: Option<String>,
    pub api_password: String,
}

/// `PUT /admin/proxy-managers/:id`.
pub struct UpdateProxyManagerRequest {
    pub name: Option<String>,
    pub host: Option<String>,
    pub api_base_url: Option<String>,
    pub api_username: Option<String>,
    pub api_password: Option<String>,
    pub is_active: Option<bool>,
}

/// The management API user: the given one, else `admin`.
pub fn api_user_or_default(api_username: &Option<String>) -> (u: String)
    ensures
        u@ == (match *api_username {
            Some(x) => x@,
            None => "admin"@,
        }),
{
    match api_username {
        Some(x) => x.clone(),
        None => owned("admin"),
    }
}

/// A manager is only registered once its health check answered.
pub fn check_reachable(reachable: bool, api_base_url: &str) -> (r: Result<(), AppError>)
    ensures
        r is Ok <==> reachable,
        r matches Err(e) ==> e.as_pair() == (ErrKind::BadRequest, "cannot reach pingora at "@ + api_base_url@
            + " \u{2014} check URL and credentials"@),
{
    if !reachable {
        return Err(AppError::BadRequest(cat3("cannot reach pingora at ", api_base_url, " \u{2014} check URL and credentials")));
    }
    Ok(())
}

/// The active client is rebuilt when an update changes its URL or
/// password.
pub fn reload_after_update(body: &UpdateProxyManagerRequest) -> (b: bool)
    ensures
        b == (body.api_password is Some || body.api_base_url is Some),
{
    body.api_password.is_some() || body.api_base_url.is_some()
}

/// A manager id that does not exist (404).
pub fn proxy_manager_not_found(id: &str) -> (e: AppError)
    ensures
        e.as_pair() == (ErrKind::NotFound, "proxy manager "@ + id@),
{
    AppError::NotFound(cat2("proxy manager ", id))
}

} // verus!
