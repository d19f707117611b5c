//! App templates: who may see one, how its image is named, and what a
//! template must hold.
//!
//! Visibility tiers: PUBLIC templates are visible to everyone, ORG ones to
//! the members of the owning project, PRIVATE ones to their owner only;
//! global admins see all.

use vstd::prelude::*;
use crate::error::{bad_request, forbidden, AppError, ErrKind};
use crate::text::{cat2, chars_of, is_ascii_alnum, is_ascii_alnum_char, opt_view, owned, str_eq, string_of};

verus! {

/// The canonical image reference `[registry/]repo[:tag][@digest]`: the
/// registry endpoint prefixes the repository unless it is empty or
/// `docker.io`; an empty tag or digest is left out.
pub open spec fn image_ref_spec(endpoint: Option<Seq<char>>, repo: Seq<char>, tag: Seq<char>, digest: Option<Seq<char>>) -> Seq<char> {
    let base = match endpoint {
        Some(ep) => if ep.len() > 0 && ep != "docker.io"@ {
            ep + "/"@ + repo
        } else {
            repo
        },
        None => repo,
    };
    let with_tag = if tag.len() > 0 {
        base + ":"@ + tag
    } else {
        base
    };
    match digest {
        Some(d) => if d.len() > 0 {
            with_tag + "@"@ + d
        } else {
            with_tag
        },
        None => with_tag,
    }
}

/// Renders the image reference of a template, given the endpoint of its
/// registry when one is set and active.
pub fn render_image_ref(endpoint: &Option<String>, repo: &str, tag: &str, digest: &Option<String>) -> (r: String)
    ensures
        r@ == image_ref_spec(opt_view(*endpoint), repo@, tag@, opt_view(*digest)),
{
    let base = match endpoint {
        Some(ep) => if !ep.as_str().is_empty() && !str_eq(ep.as_str(), "docker.io") {
            crate::text::cat3(ep.as_str(), "/", repo)
        } else {
            owned(repo)
        },
        None => owned(repo),
    };
    let with_tag = if !tag.is_empty() {
        crate::text::cat3(base.as_str(), ":", tag)
    } else {
        base
    };
    match digest {
        Some(d) => if !d.as_str().is_empty() {
            crate::text::cat3(with_tag.as_str(), "@", d.as_str())
        } else {
            with_tag
        },
        None => with_tag,
    }
}

/// Whether a caller may see a template: PUBLIC always, PRIVATE when they
/// own it, ORG when it belongs to a project they are a member of.
pub open spec fn template_visible(
    visibility: Seq<char>,
    owner_user_id: Option<Seq<char>>,
    has_owner_project: bool,
    is_member: bool,
    user_id: Seq<char>,
) -> bool {
    if visibility == "PUBLIC"@ {
        true
    } else if visibility == "PRIVATE"@ {
        owner_user_id == Some(user_id)
    } else if visibility == "ORG"@ {
        has_owner_project && is_member
    } else {
        false
    }
}

/// The visibility gate of `GET /templates/:id`: global admins see every
/// template; others only the visible ones (403 otherwise). `is_member`
/// tells whether the caller belongs to the owning project.
pub fn check_template_visible(
    visibility: &str,
    owner_user_id: &Option<String>,
    owner_project_id: &Option<String>,
    is_member: bool,
    user_id: &str,
    is_global_admin: bool,
) -> (r: Result<(), AppError>)
    ensures
        r is Ok <==> (is_global_admin || template_visible(
            visibility@,
            opt_view(*owner_user_id),
            owner_project_id is Some,
            is_member,
            user_id@,
        )),
        r matches Err(e) ==> e.as_pair() == (ErrKind::Forbidden, "template not visible to you"@),
{
    let can_see = if str_eq(visibility, "PUBLIC") {
        true
    } else if str_eq(visibility, "PRIVATE") {
        match owner_user_id {
            Some(o) => str_eq(o.as_str(), user_id),
            None => false,
        }
    } else if str_eq(visibility, "ORG") {
        owner_project_id.is_some() && is_member
    } else {
        false
    };
    if !can_see && !is_global_admin {
        return Err(forbidden("template not visible to you"));
    }
    Ok(())
}

/// A template slug: ASCII letters, digits, `-` and `_`.
pub open spec fn template_slug_ok(s: Seq<char>) -> bool {
    forall|i: int| 0 <= i < s.len() ==> is_ascii_alnum(#[trigger] s[i]) || s[i] == '-' || s[i] == '_'
}

/// What a template must hold to be created: a slug and a name, a slug of
/// allowed characters, and an image repository.
pub fn validate_new_template(slug: &str, name: &str, image_repository: &str) -> (r: Result<(), AppError>)
    ensures
        slug@.len() == 0 || name@.len() == 0 ==> (r matches Err(e) && e.as_pair() == (
            ErrKind::BadRequest,
            "slug and name are required"@,
        )),
        slug@.len() > 0 && name@.len() > 0 && !template_slug_ok(slug@) ==> (r matches Err(e) && e.as_pair() == (
            ErrKind::BadRequest,
            "slug may contain only alphanumerics, '-' or '_'"@,
        )),
        slug@.len() > 0 && name@.len() > 0 && template_slug_ok(slug@) && image_repository@.len() == 0 ==> (r matches Err(
            e,
        ) && e.as_pair() == (ErrKind::BadRequest, "image_repository is required"@)),
        slug@.len() > 0 && name@.len() > 0 && template_slug_ok(slug@) && image_repository@.len() > 0 ==> r is Ok,
{
    if slug.is_empty() || name.is_empty() {
        return Err(bad_request("slug and name are required"));
    }
    let v = chars_of(slug);
    let mut i: usize = 0;
    while i < v.len()
        invariant
            i <= v.len(),
            v@ == slug@,
            slug@.len() > 0,
            name@.len() > 0,
            forall|j: int| 0 <= j < i ==> is_ascii_alnum(#[trigger] v@[j]) || v@[j] == '-' || v@[j] == '_',
        decreases v.len() - i,
    {
        let c = v[i];
        if !(is_ascii_alnum_char(c) || c == '-' || c == '_') {
            assert(!(is_ascii_alnum(v@[i as int]) || v@[i as int] == '-' || v@[i as int] == '_'));
            return Err(bad_request("slug may contain only alphanumerics, '-' or '_'"));
        }
        i = i + 1;
    }
    if image_repository.is_empty() {
        return Err(bad_request("image_repository is required"));
    }
    Ok(())
}

/// An update keeps needing an image repository.
pub fn validate_template_update(image_repository: &str) -> (r: Result<(), AppError>)
    ensures
        r is Ok <==> image_repository@.len() > 0,
        r matches Err(e) ==> e.as_pair() == (ErrKind::BadRequest, "image_repository is required"@),
{
    if image_repository.is_empty() {
        return Err(bad_request("image_repository is required"));
    }
    Ok(())
}

/// A template's category and image tag when not given: `app` and `latest`.
pub fn template_defaults(category: &Option<String>, image_tag: &Option<String>) -> (r: (String, String))
    ensures
        r.0@ == (match opt_view(*category) { Some(c) => c, None => "app"@ }),
        r.1@ == (match opt_view(*image_tag) { Some(t) => t, None => "latest"@ }),
{
    let c = match category {
        Some(c) => c.clone(),
        None => owned("app"),
    };
    let t = match image_tag {
        Some(t) => t.clone(),
        None => owned("latest"),
    };
    (c, t)
}

/// Project routes reach only the project's own templates; any other is
/// answered as not found.
pub fn check_template_owner(owner_project_id: &Option<String>, project_id: &str, template_id: &str) -> (r: Result<(), AppError>)
    ensures
        r is Ok <==> opt_view(*owner_project_id) == Some(project_id@),
        r matches Err(e) ==> e.as_pair() == (ErrKind::NotFound, "template "@ + template_id@),
{
    let ok = match owner_project_id {
        Some(o) => str_eq(o.as_str(), project_id),
        None => false,
    };
    if !ok {
        return Err(AppError::NotFound(cat2("template ", template_id)));
    }
    Ok(())
}

/// Project template routes require the OWNER role: the project's owner and
/// global admins pass; any other member is refused (403 `OWNER role
/// required`), and a non-member is not a member (403).
pub fn check_template_manager(is_global_admin: bool, is_owner: bool, role: &Option<String>) -> (r: Result<(), AppError>)
    ensures
        r is Ok <==> (is_global_admin || is_owner),
        !is_global_admin && !is_owner && role is None ==> (r matches Err(e) && e.as_pair() == (
            ErrKind::Forbidden,
            "not a member of this project"@,
        )),
        !is_global_admin && !is_owner && role is Some ==> (r matches Err(e) && e.as_pair() == (
            ErrKind::Forbidden,
            "OWNER role required"@,
        )),
{
    if is_global_admin || is_owner {
        return Ok(());
    }
    match role {
        None => Err(forbidden("not a member of this project")),
        Some(_) => Err(forbidden("OWNER role required")),
    }
}

} // verus!
