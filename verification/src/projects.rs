//! Projects: who may do what in a project, and how its membership changes.
//!
//! Access levels:
//!   OBSERVER  — read project/members/apps, no write
//!   OPERATOR  — OBSERVER + deploy/manage apps and databases
//!   ADMIN     — OPERATOR + invite/remove members, update display_name, delete project
//!   (global admin bypasses all project-level checks; the owner counts as ADMIN)

use vstd::prelude::*;
use crate::access::AuthUser;
use crate::error::{bad_request, forbidden, AppError, ErrKind};
use crate::text::{
    cat2, cat3, cat4, chars_of, dec, decimal_string, has_non_space, is_ascii_lower, is_digit,
    is_digit_char, opt_view, str_eq, trim, trim_str, string_of,
};

verus! {

// ── Names and roles ─────────────────────────────────────────────────────────

/// A project name is a DNS label: 1 to 63 characters, lowercase ASCII
/// letters, digits and hyphens, starting with a letter.
pub open spec fn slug_ok(s: Seq<char>) -> bool {
    &&& 0 < s.len() <= 63
    &&& forall|i: int| 0 <= i < s.len() ==> is_ascii_lower(#[trigger] s[i]) || is_digit(s[i]) || s[i] == '-'
    &&& is_ascii_lower(s[0])
}

/// Whether `name` is a valid project name (see `slug_ok`).
pub fn slug_valid(name: &str) -> (b: bool)
    ensures
        b == slug_ok(name@),
{
    let v = chars_of(name);
    if v.len() == 0 || v.len() > 63 {
        return false;
    }
    let mut i: usize = 0;
    while i < v.len()
        invariant
            i <= v.len(),
            v@ == name@,
            forall|j: int| 0 <= j < i ==> is_ascii_lower(#[trigger] v@[j]) || is_digit(v@[j]) || v@[j] == '-',
        decreases v.len() - i,
    {
        let c = v[i];
        if !(('a' <= c && c <= 'z') || is_digit_char(c) || c == '-') {
            assert(!(is_ascii_lower(v@[i as int]) || is_digit(v@[i as int]) || v@[i as int] == '-'));
            return false;
        }
        i = i + 1;
    }
    'a' <= v[0] && v[0] <= 'z'
}

pub open spec fn role_ok(role: Seq<char>) -> bool {
    role == "ADMIN"@ || role == "OPERATOR"@ || role == "OBSERVER"@
}

pub open spec fn invalid_role_message(role: Seq<char>) -> Seq<char> {
    "invalid role '"@ + role + "'; valid: ADMIN OPERATOR OBSERVER"@
}

/// Only `ADMIN`, `OPERATOR` and `OBSERVER` are roles.
pub fn validate_role(role: &str) -> (r: Result<(), AppError>)
    ensures
        r is Ok <==> role_ok(role@),
        r matches Err(e) ==> e.as_pair() == (ErrKind::BadRequest, invalid_role_message(role@)),
{
    if str_eq(role, "ADMIN") || str_eq(role, "OPERATOR") || str_eq(role, "OBSERVER") {
        Ok(())
    } else {
        Err(AppError::BadRequest(cat3("invalid role '", role, "'; valid: ADMIN OPERATOR OBSERVER")))
    }
}

pub open spec fn level(role: Seq<char>) -> u8 {
    if role == "OBSERVER"@ {
        1
    } else if role == "OPERATOR"@ {
        2
    } else if role == "ADMIN"@ {
        3
    } else {
        0
    }
}

/// The rank of a role: OBSERVER 1, OPERATOR 2, ADMIN 3, anything else 0.
pub fn role_level(role: &str) -> (n: u8)
    ensures
        n == level(role@),
{
    if str_eq(role, "OBSERVER") {
        1
    } else if str_eq(role, "OPERATOR") {
        2
    } else if str_eq(role, "ADMIN") {
        3
    } else {
        0
    }
}

// ── Access ──────────────────────────────────────────────────────────────────

/// The project-level access rule: global admins and the owner pass; a
/// member passes when their role ranks at least `min_role`.
pub open spec fn access_granted(
    is_global_admin: bool,
    is_owner: bool,
    role: Option<Seq<char>>,
    min_role: Seq<char>,
) -> bool {
    ||| is_global_admin
    ||| is_owner
    ||| (role matches Some(r) && level(r) >= level(min_role))
}

/// Decides whether the caller has at least `min_role` in a project, given
/// whether they own it and the role the membership table gives them.
pub fn check_project_access(
    auth: &AuthUser,
    is_owner: bool,
    role: Option<String>,
    min_role: &str,
) -> (r: Result<(), AppError>)
    ensures
        r is Ok <==> access_granted(auth.is_global_admin, is_owner, opt_view(role), min_role@),
        r matches Err(e) ==> e.kind() == ErrKind::Forbidden && (role is None ==> e.msg()
            == "not a member of this project"@) && (role is Some ==> e.msg() == min_role@
            + " role required"@),
{
    if auth.is_global_admin {
        return Ok(());
    }
    if is_owner {
        return Ok(());
    }
    let role = match role {
        None => return Err(forbidden("not a member of this project")),
        Some(r) => r,
    };
    if role_level(role.as_str()) < role_level(min_role) {
        return Err(AppError::Forbidden(cat2(min_role, " role required")));
    }
    Ok(())
}

/// Access never shrinks as the required role gets weaker: whoever passes a
/// check passes every check for a role of lower or equal rank.
pub proof fn access_monotone(
    is_global_admin: bool,
    is_owner: bool,
    role: Option<Seq<char>>,
    stronger: Seq<char>,
    weaker: Seq<char>,
)
    requires
        access_granted(is_global_admin, is_owner, role, stronger),
        level(weaker) <= level(stronger),
    ensures
        access_granted(is_global_admin, is_owner, role, weaker),
{
}

/// Global admins and project owners pass every project-level check, and a
/// caller who is none of admin, owner or member passes none.
pub proof fn access_admin_owner_nonmember(
    is_global_admin: bool,
    is_owner: bool,
    role: Option<Seq<char>>,
    min_role: Seq<char>,
)
    ensures
        is_global_admin ==> access_granted(is_global_admin, is_owner, role, min_role),
        is_owner ==> access_granted(is_global_admin, is_owner, role, min_role),
        !is_global_admin && !is_owner && role is None ==> !access_granted(
            is_global_admin,
            is_owner,
            role,
            min_role,
        ),
{
}

// ── Membership ──────────────────────────────────────────────────────────────

/// One row of a project's membership table.
pub struct MemberRow {
    pub user_id: String,
    pub role: String,
}

/// A project's owner and membership table, as the membership routes read
/// and change them.
pub struct ProjectMembers {
    pub project_id: String,
    pub owner_id: String,
    pub members: Vec<MemberRow>,
}

/// A membership row as (user id, role).
pub type Row = (Seq<char>, Seq<char>);

pub open spec fn row_view(m: MemberRow) -> Row {
    (m.user_id@, m.role@)
}

pub open spec fn rows_of(v: Seq<MemberRow>) -> Seq<Row> {
    v.map_values(|m: MemberRow| row_view(m))
}

impl ProjectMembers {
    pub open spec fn rows(&self) -> Seq<Row> {
        rows_of(self.members@)
    }
}

/// Index of the row of `uid`, or -1.
pub open spec fn member_index(rows: Seq<Row>, uid: Seq<char>) -> int
    decreases rows.len(),
{
    if rows.len() == 0 {
        -1
    } else if rows.last().0 == uid {
        rows.len() - 1
    } else {
        member_index(rows.drop_last(), uid)
    }
}

/// The role of `uid`, if it is a member.
pub open spec fn role_in(rows: Seq<Row>, uid: Seq<char>) -> Option<Seq<char>> {
    let k = member_index(rows, uid);
    if k >= 0 {
        Some(rows[k].1)
    } else {
        None
    }
}

pub open spec fn is_admin_row(r: Row) -> bool {
    r.1 == "ADMIN"@
}

/// How many members hold the ADMIN role.
pub open spec fn admin_count(rows: Seq<Row>) -> nat
    decreases rows.len(),
{
    if rows.len() == 0 {
        0
    } else {
        admin_count(rows.drop_last()) + if is_admin_row(rows.last()) {
            1nat
        } else {
            0nat
        }
    }
}

/// No user appears twice (the table is keyed by project and user).
pub open spec fn ids_unique(rows: Seq<Row>) -> bool {
    forall|i: int, j: int| 0 <= i < rows.len() && 0 <= j < rows.len() && i != j ==> #[trigger] rows[i].0 != #[trigger] rows[j].0
}

/// The owner is a member and holds the ADMIN role.
pub open spec fn owner_is_admin(owner: Seq<char>, rows: Seq<Row>) -> bool {
    exists|i: int| 0 <= i < rows.len() && #[trigger] rows[i] == (owner, "ADMIN"@)
}

/// Some member holds the ADMIN role.
pub open spec fn has_admin(rows: Seq<Row>) -> bool {
    exists|i: int| 0 <= i < rows.len() && is_admin_row(#[trigger] rows[i])
}

proof fn lemma_member_index(rows: Seq<Row>, uid: Seq<char>)
    ensures
        -1 <= member_index(rows, uid) < rows.len(),
        member_index(rows, uid) >= 0 ==> rows[member_index(rows, uid)].0 == uid,
        member_index(rows, uid) < 0 ==> forall|j: int| 0 <= j < rows.len() ==> #[trigger] rows[j].0 != uid,
    decreases rows.len(),
{
    if rows.len() > 0 {
        let d = rows.drop_last();
        lemma_member_index(d, uid);
        if member_index(rows, uid) < 0 {
            assert forall|j: int| 0 <= j < rows.len() implies #[trigger] rows[j].0 != uid by {
                if j < rows.len() - 1 {
                    assert(d[j] == rows[j]);
                }
            }
        }
    }
}

proof fn lemma_admin_count_remove(rows: Seq<Row>, k: int)
    requires
        0 <= k < rows.len(),
    ensures
        admin_count(rows) == admin_count(rows.remove(k)) + if is_admin_row(rows[k]) {
            1nat
        } else {
            0nat
        },
    decreases rows.len(),
{
    if k == rows.len() - 1 {
        assert(rows.remove(k) =~= rows.drop_last());
    } else {
        lemma_admin_count_remove(rows.drop_last(), k);
        assert(rows.remove(k).drop_last() =~= rows.drop_last().remove(k));
        assert(rows.remove(k).last() == rows.last());
    }
}

proof fn lemma_admin_count_update(rows: Seq<Row>, k: int, r: Row)
    requires
        0 <= k < rows.len(),
    ensures
        admin_count(rows.update(k, r)) + (if is_admin_row(rows[k]) { 1nat } else { 0nat })
            == admin_count(rows) + (if is_admin_row(r) { 1nat } else { 0nat }),
{
    lemma_admin_count_remove(rows, k);
    lemma_admin_count_remove(rows.update(k, r), k);
    assert(rows.update(k, r).remove(k) =~= rows.remove(k));
}

proof fn lemma_has_admin_count(rows: Seq<Row>)
    ensures
        has_admin(rows) <==> admin_count(rows) >= 1,
    decreases rows.len(),
{
    if rows.len() > 0 {
        let d = rows.drop_last();
        lemma_has_admin_count(d);
        if has_admin(rows) {
            let i = choose|i: int| 0 <= i < rows.len() && is_admin_row(#[trigger] rows[i]);
            if i < rows.len() - 1 {
                assert(is_admin_row(d[i]));
            }
        }
        if has_admin(d) {
            let i = choose|i: int| 0 <= i < d.len() && is_admin_row(#[trigger] d[i]);
            assert(is_admin_row(rows[i]));
        }
        if is_admin_row(rows.last()) {
            assert(is_admin_row(rows[rows.len() - 1]));
        }
    }
}

// ── Membership changes ──────────────────────────────────────────────────────

/// A refusal as (kind, message).
pub type Refusal = (ErrKind, Seq<char>);

pub open spec fn member_not_found(uid: Seq<char>, project_id: Seq<char>) -> Seq<char> {
    "member "@ + uid + " in project "@ + project_id
}

/// `POST /projects/:id/leave` by `uid`.
pub open spec fn leave_outcome(owner: Seq<char>, rows: Seq<Row>, uid: Seq<char>) -> Result<
    Seq<Row>,
    Refusal,
> {
    let k = member_index(rows, uid);
    if k < 0 {
        Err((ErrKind::BadRequest, "you are not a member of this project"@))
    } else if rows[k].1 == "ADMIN"@ && admin_count(rows) <= 1 {
        Err(
            (
                ErrKind::BadRequest,
                "cannot leave: you are the last ADMIN \u{2014} transfer ownership or delete the project first"@,
            ),
        )
    } else if owner == uid {
        Err((ErrKind::BadRequest, "project owner cannot leave \u{2014} transfer ownership first"@))
    } else {
        Ok(rows.remove(k))
    }
}

/// `POST /projects/:id/transfer`: the owner (or a global admin) hands the
/// project to an existing member, who becomes ADMIN.
pub open spec fn transfer_outcome(
    owner: Seq<char>,
    rows: Seq<Row>,
    caller: Seq<char>,
    caller_is_global_admin: bool,
    new_owner: Seq<char>,
) -> Result<(Seq<char>, Seq<Row>), Refusal> {
    let k = member_index(rows, new_owner);
    if !caller_is_global_admin && owner != caller {
        Err((ErrKind::Forbidden, "only the project owner can transfer ownership"@))
    } else if k < 0 {
        Err((ErrKind::BadRequest, "new owner must already be a project member"@))
    } else {
        Ok((new_owner, rows.update(k, (new_owner, "ADMIN"@))))
    }
}

/// `POST /projects/:id/members`: add `uid` with `role`, or change the role
/// of an existing member.
pub open spec fn add_outcome(rows: Seq<Row>, uid: Seq<char>, role: Seq<char>) -> Result<
    Seq<Row>,
    Refusal,
> {
    let k = member_index(rows, uid);
    if !role_ok(role) {
        Err((ErrKind::BadRequest, invalid_role_message(role)))
    } else if k >= 0 {
        Ok(rows.update(k, (uid, role)))
    } else {
        Ok(rows.push((uid, role)))
    }
}

/// `PUT /projects/:id/members/:uid`: change a member's role, never demoting
/// the last ADMIN or the owner.
pub open spec fn update_outcome(
    owner: Seq<char>,
    rows: Seq<Row>,
    project_id: Seq<char>,
    uid: Seq<char>,
    role: Seq<char>,
) -> Result<Seq<Row>, Refusal> {
    let k = member_index(rows, uid);
    if !role_ok(role) {
        Err((ErrKind::BadRequest, invalid_role_message(role)))
    } else if role != "ADMIN"@ && role_in(rows, uid) == Some("ADMIN"@) && admin_count(rows) <= 1 {
        Err((ErrKind::BadRequest, "cannot demote: this user is the last ADMIN of the project"@))
    } else if uid == owner && role != "ADMIN"@ {
        Err(
            (
                ErrKind::BadRequest,
                "project owner must retain ADMIN role \u{2014} transfer ownership first"@,
            ),
        )
    } else if k < 0 {
        Err((ErrKind::NotFound, member_not_found(uid, project_id)))
    } else {
        Ok(rows.update(k, (uid, role)))
    }
}

/// `DELETE /projects/:id/members/:uid`: never the owner, never the last ADMIN.
pub open spec fn remove_outcome(
    owner: Seq<char>,
    rows: Seq<Row>,
    project_id: Seq<char>,
    uid: Seq<char>,
) -> Result<Seq<Row>, Refusal> {
    let k = member_index(rows, uid);
    if uid == owner {
        Err(
            (
                ErrKind::BadRequest,
                "cannot remove the project owner \u{2014} transfer ownership first"@,
            ),
        )
    } else if role_in(rows, uid) == Some("ADMIN"@) && admin_count(rows) <= 1 {
        Err((ErrKind::BadRequest, "cannot remove: this user is the last ADMIN of the project"@))
    } else if k < 0 {
        Err((ErrKind::NotFound, member_not_found(uid, project_id)))
    } else {
        Ok(rows.remove(k))
    }
}

/// The global admin's role change: no last-ADMIN or owner guard.
pub open spec fn admin_update_outcome(
    rows: Seq<Row>,
    project_id: Seq<char>,
    uid: Seq<char>,
    role: Seq<char>,
) -> Result<Seq<Row>, Refusal> {
    let k = member_index(rows, uid);
    if !role_ok(role) {
        Err((ErrKind::BadRequest, invalid_role_message(role)))
    } else if k < 0 {
        Err((ErrKind::NotFound, member_not_found(uid, project_id)))
    } else {
        Ok(rows.update(k, (uid, role)))
    }
}

/// The global admin's removal: no last-ADMIN or owner guard.
pub open spec fn admin_remove_outcome(rows: Seq<Row>, project_id: Seq<char>, uid: Seq<char>) -> Result<
    Seq<Row>,
    Refusal,
> {
    let k = member_index(rows, uid);
    if k < 0 {
        Err((ErrKind::NotFound, member_not_found(uid, project_id)))
    } else {
        Ok(rows.remove(k))
    }
}

proof fn lemma_member_index_is(rows: Seq<Row>, uid: Seq<char>, i: int)
    requires
        -1 <= i < rows.len(),
        i >= 0 ==> rows[i].0 == uid,
        forall|j: int| i < j < rows.len() ==> #[trigger] rows[j].0 != uid,
    ensures
        member_index(rows, uid) == i,
    decreases rows.len(),
{
    if rows.len() > 0 && i < rows.len() - 1 {
        let d = rows.drop_last();
        assert forall|j: int| i < j < d.len() implies #[trigger] d[j].0 != uid by {
            assert(d[j] == rows[j]);
        }
        assert(rows.last() == rows[rows.len() - 1]);
        lemma_member_index_is(d, uid, i);
    }
}

fn find_member(members: &Vec<MemberRow>, uid: &str) -> (k: Option<usize>)
    ensures
        match k {
            Some(i) => member_index(rows_of(members@), uid@) == i && i < members@.len(),
            None => member_index(rows_of(members@), uid@) == -1,
        },
{
    let ghost rows = rows_of(members@);
    let mut i: usize = members.len();
    while i > 0
        invariant
            i <= members.len(),
            rows == rows_of(members@),
            forall|j: int| i <= j < members.len() ==> #[trigger] rows[j].0 != uid@,
        decreases i,
    {
        if str_eq(members[i - 1].user_id.as_str(), uid) {
            proof {
                assert(rows[i - 1].0 == uid@);
                lemma_member_index_is(rows, uid@, i - 1);
            }
            return Some(i - 1);
        }
        assert(rows[i - 1].0 != uid@);
        i = i - 1;
    }
    proof {
        lemma_member_index_is(rows, uid@, -1);
    }
    None
}

fn member_not_found_error(uid: &str, project_id: &str) -> (e: AppError)
    ensures
        e.as_pair() == (ErrKind::NotFound, member_not_found(uid@, project_id@)),
{
    AppError::NotFound(cat4("member ", uid, " in project ", project_id))
}

impl ProjectMembers {
    /// The role of `uid` in the project, if it is a member.
    pub fn role_of(&self, uid: &str) -> (r: Option<String>)
        ensures
            opt_view(r) == role_in(self.rows(), uid@),
    {
        match find_member(&self.members, uid) {
            Some(k) => Some(self.members[k].role.clone()),
            None => None,
        }
    }

    /// How many members hold the ADMIN role.
    pub fn admin_count(&self) -> (n: usize)
        ensures
            n == admin_count(self.rows()),
    {
        let ghost rows = self.rows();
        let mut n: usize = 0;
        let mut i: usize = 0;
        while i < self.members.len()
            invariant
                i <= self.members.len(),
                rows == self.rows(),
                n == admin_count(rows.take(i as int)),
                n <= i,
            decreases self.members.len() - i,
        {
            assert(rows.take(i + 1).drop_last() =~= rows.take(i as int));
            if str_eq(self.members[i].role.as_str(), "ADMIN") {
                n = n + 1;
            }
            i = i + 1;
        }
        assert(rows.take(i as int) =~= rows);
        n
    }

    fn remove_at(&mut self, k: usize)
        requires
            k < old(self).members@.len(),
        ensures
            final(self).rows() == old(self).rows().remove(k as int),
            final(self).owner_id == old(self).owner_id,
            final(self).project_id == old(self).project_id,
    {
        let ghost before = self.rows();
        self.members.remove(k);
        assert(self.rows() =~= before.remove(k as int));
    }

    fn set_role(&mut self, k: usize, uid: &str, role: &str)
        requires
            k < old(self).members@.len(),
        ensures
            final(self).rows() == old(self).rows().update(k as int, (uid@, role@)),
            final(self).owner_id == old(self).owner_id,
            final(self).project_id == old(self).project_id,
    {
        let ghost before = self.rows();
        let row = MemberRow { user_id: crate::text::owned(uid), role: crate::text::owned(role) };
        self.members.set(k, row);
        assert(self.rows() =~= before.update(k as int, (uid@, role@)));
    }

    /// The caller `uid` leaves the project; the last ADMIN and the owner
    /// cannot.
    pub fn leave_project(&mut self, uid: &str) -> (r: Result<(), AppError>)
        ensures
            final(self).owner_id == old(self).owner_id,
            final(self).project_id == old(self).project_id,
            match r {
                Ok(()) => leave_outcome(old(self).owner_id@, old(self).rows(), uid@) == Ok::<
                    Seq<Row>,
                    Refusal,
                >(final(self).rows()),
                Err(e) => leave_outcome(old(self).owner_id@, old(self).rows(), uid@) == Err::<
                    Seq<Row>,
                    Refusal,
                >(e.as_pair()) && final(self).rows() == old(self).rows(),
            },
    {
        let k = match find_member(&self.members, uid) {
            None => return Err(bad_request("you are not a member of this project")),
            Some(k) => k,
        };
        if str_eq(self.members[k].role.as_str(), "ADMIN") && self.admin_count() <= 1 {
            return Err(
                bad_request(
                    "cannot leave: you are the last ADMIN \u{2014} transfer ownership or delete the project first",
                ),
            );
        }
        if str_eq(self.owner_id.as_str(), uid) {
            return Err(bad_request("project owner cannot leave \u{2014} transfer ownership first"));
        }
        self.remove_at(k);
        Ok(())
    }

    /// Hands the project to `new_owner_id`, who must already be a member and
    /// becomes ADMIN; only the owner or a global admin may do so.
    pub fn transfer_owner(&mut self, auth: &AuthUser, new_owner_id: &str) -> (r: Result<(), AppError>)
        ensures
            final(self).project_id == old(self).project_id,
            match r {
                Ok(()) => transfer_outcome(
                    old(self).owner_id@,
                    old(self).rows(),
                    auth.user_id@,
                    auth.is_global_admin,
                    new_owner_id@,
                ) == Ok::<(Seq<char>, Seq<Row>), Refusal>((final(self).owner_id@, final(self).rows())),
                Err(e) => transfer_outcome(
                    old(self).owner_id@,
                    old(self).rows(),
                    auth.user_id@,
                    auth.is_global_admin,
                    new_owner_id@,
                ) == Err::<(Seq<char>, Seq<Row>), Refusal>(e.as_pair()) && final(self).rows()
                    == old(self).rows() && final(self).owner_id == old(self).owner_id,
            },
    {
        if !auth.is_global_admin && !str_eq(self.owner_id.as_str(), auth.user_id.as_str()) {
            return Err(forbidden("only the project owner can transfer ownership"));
        }
        let k = match find_member(&self.members, new_owner_id) {
            None => return Err(bad_request("new owner must already be a project member")),
            Some(k) => k,
        };
        self.set_role(k, new_owner_id, "ADMIN");
        self.owner_id = crate::text::owned(new_owner_id);
        Ok(())
    }

    /// Adds `uid` with `role`, or changes the role of an existing member.
    pub fn add_member(&mut self, uid: &str, role: &str) -> (r: Result<(), AppError>)
        ensures
            final(self).owner_id == old(self).owner_id,
            final(self).project_id == old(self).project_id,
            match r {
                Ok(()) => add_outcome(old(self).rows(), uid@, role@) == Ok::<Seq<Row>, Refusal>(
                    final(self).rows(),
                ),
                Err(e) => add_outcome(old(self).rows(), uid@, role@) == Err::<Seq<Row>, Refusal>(
                    e.as_pair(),
                ) && final(self).rows() == old(self).rows(),
            },
    {
        validate_role(role)?;
        match find_member(&self.members, uid) {
            Some(k) => {
                self.set_role(k, uid, role);
            },
            None => {
                let ghost before = self.rows();
                let row = MemberRow { user_id: crate::text::owned(uid), role: crate::text::owned(role) };
                self.members.push(row);
                assert(self.rows() =~= before.push((uid@, role@)));
            },
        }
        Ok(())
    }

    /// Changes the role of member `uid`, refusing to demote the last ADMIN
    /// or the owner.
    pub fn update_member(&mut self, uid: &str, role: &str) -> (r: Result<(), AppError>)
        ensures
            final(self).owner_id == old(self).owner_id,
            final(self).project_id == old(self).project_id,
            match r {
                Ok(()) => update_outcome(
                    old(self).owner_id@,
                    old(self).rows(),
                    old(self).project_id@,
                    uid@,
                    role@,
                ) == Ok::<Seq<Row>, Refusal>(final(self).rows()),
                Err(e) => update_outcome(
                    old(self).owner_id@,
                    old(self).rows(),
                    old(self).project_id@,
                    uid@,
                    role@,
                ) == Err::<Seq<Row>, Refusal>(e.as_pair()) && final(self).rows() == old(self).rows(),
            },
    {
        validate_role(role)?;
        let k = find_member(&self.members, uid);
        if !str_eq(role, "ADMIN") {
            if let Some(i) = k {
                if str_eq(self.members[i].role.as_str(), "ADMIN") && self.admin_count() <= 1 {
                    return Err(bad_request("cannot demote: this user is the last ADMIN of the project"));
                }
            }
        }
        if str_eq(uid, self.owner_id.as_str()) && !str_eq(role, "ADMIN") {
            return Err(
                bad_request("project owner must retain ADMIN role \u{2014} transfer ownership first"),
            );
        }
        match k {
            None => Err(member_not_found_error(uid, self.project_id.as_str())),
            Some(i) => {
                self.set_role(i, uid, role);
                Ok(())
            },
        }
    }

    /// Removes member `uid`; never the owner, never the last ADMIN.
    pub fn remove_member(&mut self, uid: &str) -> (r: Result<(), AppError>)
        ensures
            final(self).owner_id == old(self).owner_id,
            final(self).project_id == old(self).project_id,
            match r {
                Ok(()) => remove_outcome(old(self).owner_id@, old(self).rows(), old(self).project_id@, uid@)
                    == Ok::<Seq<Row>, Refusal>(final(self).rows()),
                Err(e) => remove_outcome(old(self).owner_id@, old(self).rows(), old(self).project_id@, uid@)
                    == Err::<Seq<Row>, Refusal>(e.as_pair()) && final(self).rows() == old(self).rows(),
            },
    {
        if str_eq(uid, self.owner_id.as_str()) {
            return Err(bad_request("cannot remove the project owner \u{2014} transfer ownership first"));
        }
        let k = find_member(&self.members, uid);
        if let Some(i) = k {
            if str_eq(self.members[i].role.as_str(), "ADMIN") && self.admin_count() <= 1 {
                return Err(bad_request("cannot remove: this user is the last ADMIN of the project"));
            }
        }
        match k {
            None => Err(member_not_found_error(uid, self.project_id.as_str())),
            Some(i) => {
                self.remove_at(i);
                Ok(())
            },
        }
    }

    /// A global admin's role change, without the last-ADMIN or owner guard.
    pub fn admin_update_member(&mut self, uid: &str, role: &str) -> (r: Result<(), AppError>)
        ensures
            final(self).owner_id == old(self).owner_id,
            final(self).project_id == old(self).project_id,
            match r {
                Ok(()) => admin_update_outcome(old(self).rows(), old(self).project_id@, uid@, role@)
                    == Ok::<Seq<Row>, Refusal>(final(self).rows()),
                Err(e) => admin_update_outcome(old(self).rows(), old(self).project_id@, uid@, role@)
                    == Err::<Seq<Row>, Refusal>(e.as_pair()) && final(self).rows() == old(self).rows(),
            },
    {
        validate_role(role)?;
        match find_member(&self.members, uid) {
            None => Err(member_not_found_error(uid, self.project_id.as_str())),
            Some(i) => {
                self.set_role(i, uid, role);
                Ok(())
            },
        }
    }

    /// A global admin's removal, without the last-ADMIN or owner guard.
    pub fn admin_remove_member(&mut self, uid: &str) -> (r: Result<(), AppError>)
        ensures
            final(self).owner_id == old(self).owner_id,
            final(self).project_id == old(self).project_id,
            match r {
                Ok(()) => admin_remove_outcome(old(self).rows(), old(self).project_id@, uid@)
                    == Ok::<Seq<Row>, Refusal>(final(self).rows()),
                Err(e) => admin_remove_outcome(old(self).rows(), old(self).project_id@, uid@)
                    == Err::<Seq<Row>, Refusal>(e.as_pair()) && final(self).rows() == old(self).rows(),
            },
    {
        match find_member(&self.members, uid) {
            None => Err(member_not_found_error(uid, self.project_id.as_str())),
            Some(i) => {
                self.remove_at(i);
                Ok(())
            },
        }
    }
}

// ── What every membership change keeps ─────────────────────────────────────

/// A consistent membership table: no user twice, and the owner is an ADMIN
/// member.
pub open spec fn membership_ok(owner: Seq<char>, rows: Seq<Row>) -> bool {
    ids_unique(rows) && owner_is_admin(owner, rows)
}

proof fn lemma_unique_remove(rows: Seq<Row>, k: int)
    requires
        ids_unique(rows),
        0 <= k < rows.len(),
    ensures
        ids_unique(rows.remove(k)),
{
    let r = rows.remove(k);
    assert forall|i: int, j: int| 0 <= i < r.len() && 0 <= j < r.len() && i != j implies #[trigger] r[i].0
        != #[trigger] r[j].0 by {
        let a = if i < k { i } else { i + 1 };
        let b = if j < k { j } else { j + 1 };
        assert(r[i] == rows[a]);
        assert(r[j] == rows[b]);
        assert(rows[a].0 != rows[b].0);
    }
}

proof fn lemma_unique_update(rows: Seq<Row>, k: int, role: Seq<char>)
    requires
        ids_unique(rows),
        0 <= k < rows.len(),
    ensures
        ids_unique(rows.update(k, (rows[k].0, role))),
{
    let r = rows.update(k, (rows[k].0, role));
    assert forall|i: int, j: int| 0 <= i < r.len() && 0 <= j < r.len() && i != j implies #[trigger] r[i].0
        != #[trigger] r[j].0 by {
        assert(r[i].0 == rows[i].0);
        assert(r[j].0 == rows[j].0);
    }
}

proof fn lemma_unique_push(rows: Seq<Row>, row: Row)
    requires
        ids_unique(rows),
        forall|j: int| 0 <= j < rows.len() ==> #[trigger] rows[j].0 != row.0,
    ensures
        ids_unique(rows.push(row)),
{
    let r = rows.push(row);
    assert forall|i: int, j: int| 0 <= i < r.len() && 0 <= j < r.len() && i != j implies #[trigger] r[i].0
        != #[trigger] r[j].0 by {
        if i < rows.len() && j < rows.len() {
            assert(r[i] == rows[i]);
            assert(r[j] == rows[j]);
        } else if i < rows.len() {
            assert(r[i] == rows[i]);
        } else {
            assert(r[j] == rows[j]);
        }
    }
}

proof fn lemma_owner_after_remove(owner: Seq<char>, rows: Seq<Row>, k: int)
    requires
        owner_is_admin(owner, rows),
        0 <= k < rows.len(),
        rows[k].0 != owner,
    ensures
        owner_is_admin(owner, rows.remove(k)),
{
    let i = choose|i: int| 0 <= i < rows.len() && #[trigger] rows[i] == (owner, "ADMIN"@);
    let r = rows.remove(k);
    if i < k {
        assert(r[i] == rows[i]);
    } else {
        assert(r[i - 1] == rows[i]);
    }
}

proof fn lemma_owner_after_update(owner: Seq<char>, rows: Seq<Row>, k: int, role: Seq<char>)
    requires
        owner_is_admin(owner, rows),
        0 <= k < rows.len(),
        rows[k].0 != owner || role == "ADMIN"@,
    ensures
        owner_is_admin(owner, rows.update(k, (rows[k].0, role))),
{
    let i = choose|i: int| 0 <= i < rows.len() && #[trigger] rows[i] == (owner, "ADMIN"@);
    let r = rows.update(k, (rows[k].0, role));
    assert(r[i] == (owner, "ADMIN"@));
}

proof fn lemma_owner_after_push(owner: Seq<char>, rows: Seq<Row>, row: Row)
    requires
        owner_is_admin(owner, rows),
    ensures
        owner_is_admin(owner, rows.push(row)),
{
    let i = choose|i: int| 0 <= i < rows.len() && #[trigger] rows[i] == (owner, "ADMIN"@);
    assert(rows.push(row)[i] == rows[i]);
}

proof fn lemma_owner_has_admin(owner: Seq<char>, rows: Seq<Row>)
    requires
        owner_is_admin(owner, rows),
    ensures
        has_admin(rows),
{
    let i = choose|i: int| 0 <= i < rows.len() && #[trigger] rows[i] == (owner, "ADMIN"@);
    assert(is_admin_row(rows[i]));
}

/// Leaving a project keeps the membership consistent: no user twice, the
/// owner still an ADMIN member, and at least one ADMIN left.
pub proof fn leave_keeps_membership(owner: Seq<char>, rows: Seq<Row>, uid: Seq<char>)
    requires
        membership_ok(owner, rows),
        leave_outcome(owner, rows, uid) is Ok,
    ensures
        membership_ok(owner, leave_outcome(owner, rows, uid)->Ok_0),
        has_admin(leave_outcome(owner, rows, uid)->Ok_0),
{
    lemma_member_index(rows, uid);
    let k = member_index(rows, uid);
    lemma_unique_remove(rows, k);
    lemma_owner_after_remove(owner, rows, k);
    lemma_owner_has_admin(owner, rows.remove(k));
}

/// Leaving never takes away the last ADMIN, whoever owns the project.
pub proof fn leave_keeps_an_admin(owner: Seq<char>, rows: Seq<Row>, uid: Seq<char>)
    requires
        has_admin(rows),
        leave_outcome(owner, rows, uid) is Ok,
    ensures
        has_admin(leave_outcome(owner, rows, uid)->Ok_0),
{
    lemma_member_index(rows, uid);
    let k = member_index(rows, uid);
    lemma_has_admin_count(rows);
    lemma_admin_count_remove(rows, k);
    lemma_has_admin_count(rows.remove(k));
}

/// A role change by a project ADMIN keeps the membership consistent and
/// never takes away the last ADMIN.
pub proof fn update_keeps_membership(
    owner: Seq<char>,
    rows: Seq<Row>,
    project_id: Seq<char>,
    uid: Seq<char>,
    role: Seq<char>,
)
    requires
        ids_unique(rows),
        update_outcome(owner, rows, project_id, uid, role) is Ok,
    ensures
        ids_unique(update_outcome(owner, rows, project_id, uid, role)->Ok_0),
        owner_is_admin(owner, rows) ==> owner_is_admin(
            owner,
            update_outcome(owner, rows, project_id, uid, role)->Ok_0,
        ),
        has_admin(rows) ==> has_admin(update_outcome(owner, rows, project_id, uid, role)->Ok_0),
{
    lemma_member_index(rows, uid);
    let k = member_index(rows, uid);
    assert(rows.update(k, (uid, role)) == rows.update(k, (rows[k].0, role)));
    lemma_unique_update(rows, k, role);
    if owner_is_admin(owner, rows) {
        lemma_owner_after_update(owner, rows, k, role);
    }
    lemma_has_admin_count(rows);
    lemma_admin_count_update(rows, k, (uid, role));
    lemma_has_admin_count(rows.update(k, (uid, role)));
}

/// Removing a member keeps the membership consistent and never takes away
/// the last ADMIN.
pub proof fn remove_keeps_membership(
    owner: Seq<char>,
    rows: Seq<Row>,
    project_id: Seq<char>,
    uid: Seq<char>,
)
    requires
        ids_unique(rows),
        remove_outcome(owner, rows, project_id, uid) is Ok,
    ensures
        ids_unique(remove_outcome(owner, rows, project_id, uid)->Ok_0),
        owner_is_admin(owner, rows) ==> owner_is_admin(
            owner,
            remove_outcome(owner, rows, project_id, uid)->Ok_0,
        ),
        has_admin(rows) ==> has_admin(remove_outcome(owner, rows, project_id, uid)->Ok_0),
{
    lemma_member_index(rows, uid);
    let k = member_index(rows, uid);
    lemma_unique_remove(rows, k);
    if owner_is_admin(owner, rows) {
        lemma_owner_after_remove(owner, rows, k);
    }
    lemma_has_admin_count(rows);
    lemma_admin_count_remove(rows, k);
    lemma_has_admin_count(rows.remove(k));
}

/// After a transfer the new owner is an ADMIN member, and no user appears
/// twice.
pub proof fn transfer_keeps_membership(
    owner: Seq<char>,
    rows: Seq<Row>,
    caller: Seq<char>,
    caller_is_global_admin: bool,
    new_owner: Seq<char>,
)
    requires
        ids_unique(rows),
        transfer_outcome(owner, rows, caller, caller_is_global_admin, new_owner) is Ok,
    ensures
        ({
            let (o, r) = transfer_outcome(owner, rows, caller, caller_is_global_admin, new_owner)->Ok_0;
            o == new_owner && membership_ok(o, r)
        }),
{
    lemma_member_index(rows, new_owner);
    let k = member_index(rows, new_owner);
    assert(rows.update(k, (new_owner, "ADMIN"@)) == rows.update(k, (rows[k].0, "ADMIN"@)));
    lemma_unique_update(rows, k, "ADMIN"@);
    let r = rows.update(k, (new_owner, "ADMIN"@));
    assert(r[k] == (new_owner, "ADMIN"@));
}

/// Adding a member, or re-adding one with a new role, keeps the membership
/// consistent unless it is the owner being given a lower role than ADMIN.
pub proof fn add_keeps_membership(owner: Seq<char>, rows: Seq<Row>, uid: Seq<char>, role: Seq<char>)
    requires
        membership_ok(owner, rows),
        add_outcome(rows, uid, role) is Ok,
        uid != owner || role == "ADMIN"@,
    ensures
        membership_ok(owner, add_outcome(rows, uid, role)->Ok_0),
{
    lemma_member_index(rows, uid);
    let k = member_index(rows, uid);
    if k >= 0 {
        assert(rows.update(k, (uid, role)) == rows.update(k, (rows[k].0, role)));
        lemma_unique_update(rows, k, role);
        lemma_owner_after_update(owner, rows, k, role);
    } else {
        lemma_unique_push(rows, (uid, role));
        lemma_owner_after_push(owner, rows, (uid, role));
    }
}

// ── Requests ────────────────────────────────────────────────────────────────

pub struct CreateProjectRequest {
    pub name: String,
    pub display_name: String,
}

pub struct UpdateProjectRequest {
    pub display_name: Option<String>,
}

pub struct TransferOwnerRequest {
    pub new_owner_id: String,
}

/// Lookup by user id takes priority; the username is the fallback.
pub struct AddMemberRequest {
    pub user_id: Option<String>,
    pub username: Option<String>,
    pub role: String,
}

pub struct UpdateMemberRequest {
    pub role: String,
}

pub struct AdminListQuery {
    pub search: Option<String>,
    pub is_active: Option<bool>,
    pub owner_id: Option<String>,
    pub page: Option<u32>,
    pub per_page: Option<u32>,
}

pub struct AdminCreateProjectRequest {
    pub name: String,
    pub display_name: String,
    /// Defaults to the requesting admin when omitted.
    pub owner_id: Option<String>,
    pub quota_cpu_mcores: Option<u32>,
    pub quota_mem_mb: Option<u32>,
    pub quota_storage_gb: Option<u32>,
    pub quota_apps: Option<u32>,
    pub quota_db_instances: Option<u32>,
    pub quota_bandwidth_gb: Option<u32>,
    pub quota_domain_count: Option<u32>,
    pub quota_request_million: Option<u32>,
}

pub struct AdminUpdateProjectRequest {
    pub display_name: Option<String>,
    pub is_active: Option<bool>,
    pub owner_id: Option<String>,
    pub quota_cpu_mcores: Option<u32>,
    pub quota_mem_mb: Option<u32>,
    pub quota_storage_gb: Option<u32>,
    pub quota_apps: Option<u32>,
    pub quota_db_instances: Option<u32>,
    pub quota_bandwidth_gb: Option<u32>,
    pub quota_domain_count: Option<u32>,
    pub quota_request_million: Option<u32>,
}

pub open spec fn bad_slug_message() -> Seq<char> {
    "project name must be lowercase letters/digits/hyphens, start with a letter, max 63 chars"@
}

fn bad_slug_error() -> (e: AppError)
    ensures
        e.as_pair() == (ErrKind::BadRequest, bad_slug_message()),
{
    bad_request("project name must be lowercase letters/digits/hyphens, start with a letter, max 63 chars")
}

/// Whether a user may create a project: admins always; others while the
/// platform setting `allow_user_create_projects` is `1` (its default).
pub open spec fn may_create(is_global_admin: bool, setting: Option<Seq<char>>) -> bool {
    is_global_admin || match setting {
        Some(v) => v == "1"@,
        None => true,
    }
}

/// Checks a project creation request: the caller may create projects, the
/// name is a valid slug and the display name is not blank. Gives the
/// display name to store, trimmed.
pub fn validate_new_project(
    auth: &AuthUser,
    allow_setting: Option<String>,
    body: &CreateProjectRequest,
) -> (r: Result<String, AppError>)
    ensures
        !may_create(auth.is_global_admin, opt_view(allow_setting)) ==> (r matches Err(e) && e.as_pair()
            == (ErrKind::Forbidden, "project creation is restricted to administrators"@)),
        may_create(auth.is_global_admin, opt_view(allow_setting)) && !slug_ok(body.name@) ==> (r matches Err(
            e,
        ) && e.as_pair() == (ErrKind::BadRequest, bad_slug_message())),
        may_create(auth.is_global_admin, opt_view(allow_setting)) && slug_ok(body.name@) && !has_non_space(
            body.display_name@,
        ) ==> (r matches Err(e) && e.as_pair() == (ErrKind::BadRequest, "display_name is required"@)),
        may_create(auth.is_global_admin, opt_view(allow_setting)) && slug_ok(body.name@) && has_non_space(
            body.display_name@,
        ) ==> (r matches Ok(d) && d@ == trim(body.display_name@)),
{
    if !auth.is_global_admin {
        let allowed = match &allow_setting {
            Some(v) => str_eq(v.as_str(), "1"),
            None => true,
        };
        if !allowed {
            return Err(forbidden("project creation is restricted to administrators"));
        }
    }
    if !slug_valid(body.name.as_str()) {
        return Err(bad_slug_error());
    }
    let d = trim_str(body.display_name.as_str());
    if d.len() == 0 {
        return Err(bad_request("display_name is required"));
    }
    Ok(string_of(&d))
}

/// Checks a display-name change: a new name must not be blank. Gives the
/// trimmed name to store, if any.
pub fn validate_project_update(body: &UpdateProjectRequest) -> (r: Result<Option<String>, AppError>)
    ensures
        match body.display_name {
            None => r matches Ok(None),
            Some(d) => if has_non_space(d@) {
                r matches Ok(Some(t)) && t@ == trim(d@)
            } else {
                r matches Err(e) && e.as_pair() == (ErrKind::BadRequest, "display_name cannot be empty"@)
            },
        },
{
    match &body.display_name {
        None => Ok(None),
        Some(d) => {
            let t = trim_str(d.as_str());
            if t.len() == 0 {
                Err(bad_request("display_name cannot be empty"))
            } else {
                Ok(Some(string_of(&t)))
            }
        },
    }
}

/// A project with apps that are neither stopped nor failed cannot be
/// deleted.
pub fn check_project_deletable(running: i64) -> (r: Result<(), AppError>)
    ensures
        r is Ok <==> running <= 0,
        r matches Err(e) ==> e.as_pair() == (ErrKind::BadRequest, "cannot delete project with "@
            + dec(running as nat) + " running app(s) \u{2014} stop them first"@),
{
    if running > 0 {
        let n = decimal_string(running as u64);
        return Err(
            AppError::BadRequest(
                cat3("cannot delete project with ", n.as_str(), " running app(s) \u{2014} stop them first"),
            ),
        );
    }
    Ok(())
}

/// How the user to add is looked up.
pub enum MemberTarget {
    ById(String),
    ByUsername(String),
}

/// The lookup a member request asks for: by user id when given, else by
/// username; a request with neither is refused.
pub fn member_target(body: &AddMemberRequest) -> (r: Result<MemberTarget, AppError>)
    ensures
        body.user_id matches Some(u) ==> (r matches Ok(MemberTarget::ById(x)) && x@ == u@),
        body.user_id is None ==> (body.username matches Some(n) ==> (r matches Ok(
            MemberTarget::ByUsername(x),
        ) && x@ == n@)),
        body.user_id is None && body.username is None ==> (r matches Err(e) && e.as_pair() == (
            ErrKind::BadRequest,
            "provide either user_id or username"@,
        )),
{
    if let Some(u) = &body.user_id {
        Ok(MemberTarget::ById(u.clone()))
    } else if let Some(n) = &body.username {
        Ok(MemberTarget::ByUsername(n.clone()))
    } else {
        Err(bad_request("provide either user_id or username"))
    }
}

/// The project row an admin creation inserts.
pub struct NewProjectRow {
    pub name: String,
    pub display_name: String,
    pub owner_id: String,
    /// cpu, mem, storage, apps, db instances, bandwidth, domains, requests.
    pub quotas: [u32; 8],
}

pub open spec fn or_zero(q: Option<u32>) -> u32 {
    match q {
        Some(v) => v,
        None => 0,
    }
}

/// An admin creates a project for any owner (the admin by default), with
/// quotas that default to 0 (unlimited); the name must be a valid slug.
pub fn admin_create_row(auth: &AuthUser, body: &AdminCreateProjectRequest) -> (r: Result<
    NewProjectRow,
    AppError,
>)
    ensures
        !slug_ok(body.name@) ==> (r matches Err(e) && e.as_pair() == (ErrKind::BadRequest, bad_slug_message())),
        slug_ok(body.name@) ==> (r matches Ok(row) && row.name@ == body.name@ && row.display_name@ == trim(
            body.display_name@,
        ) && row.owner_id@ == (match body.owner_id {
            Some(o) => o@,
            None => auth.user_id@,
        }) && row.quotas@ == seq![
            or_zero(body.quota_cpu_mcores),
            or_zero(body.quota_mem_mb),
            or_zero(body.quota_storage_gb),
            or_zero(body.quota_apps),
            or_zero(body.quota_db_instances),
            or_zero(body.quota_bandwidth_gb),
            or_zero(body.quota_domain_count),
            or_zero(body.quota_request_million),
        ]),
{
    if !slug_valid(body.name.as_str()) {
        return Err(bad_slug_error());
    }
    let owner_id = match &body.owner_id {
        Some(o) => o.clone(),
        None => auth.user_id.clone(),
    };
    let d = trim_str(body.display_name.as_str());
    let quotas: [u32; 8] = [
        match body.quota_cpu_mcores { Some(v) => v, None => 0 },
        match body.quota_mem_mb { Some(v) => v, None => 0 },
        match body.quota_storage_gb { Some(v) => v, None => 0 },
        match body.quota_apps { Some(v) => v, None => 0 },
        match body.quota_db_instances { Some(v) => v, None => 0 },
        match body.quota_bandwidth_gb { Some(v) => v, None => 0 },
        match body.quota_domain_count { Some(v) => v, None => 0 },
        match body.quota_request_million { Some(v) => v, None => 0 },
    ];
    assert(quotas@ =~= seq![
        or_zero(body.quota_cpu_mcores),
        or_zero(body.quota_mem_mb),
        or_zero(body.quota_storage_gb),
        or_zero(body.quota_apps),
        or_zero(body.quota_db_instances),
        or_zero(body.quota_bandwidth_gb),
        or_zero(body.quota_domain_count),
        or_zero(body.quota_request_million),
    ]);
    Ok(NewProjectRow { name: body.name.clone(), display_name: string_of(&d), owner_id, quotas })
}

/// The `%term%` pattern of a search.
pub fn like_pattern(s: &str) -> (p: String)
    ensures
        p@ == "%"@ + s@ + "%"@,
{
    cat3("%", s, "%")
}

} // verus!
