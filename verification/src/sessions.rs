//! The stores behind sign-in sessions: password-reset tokens, which work
//! once and end every session of their user, and refresh tokens, which
//! rotate on each use.

use vstd::prelude::*;
use crate::error::{bad_request, unauthorized, AppError, ErrKind};
use crate::clusters::is_lower_hex;
use crate::databases::{hyphenated_uuid, new_uuid_text};
use crate::text::{chars_of, owned, push_str, slice_chars, str_eq, string_of, push_all};

verus! {

// ── Finding a row by token hash ─────────────────────────────────────────────

/// Index of the first hash equal to `h`, or -1.
pub open spec fn first_hash(hs: Seq<Seq<char>>, h: Seq<char>) -> int
    decreases hs.len(),
{
    if hs.len() == 0 {
        -1
    } else {
        let r = first_hash(hs.drop_last(), h);
        if r >= 0 {
            r
        } else if hs.last() == h {
            hs.len() - 1
        } else {
            -1
        }
    }
}

proof fn lemma_first_hash(hs: Seq<Seq<char>>, h: Seq<char>)
    ensures
        -1 <= first_hash(hs, h) < hs.len(),
        first_hash(hs, h) >= 0 ==> hs[first_hash(hs, h)] == h,
        forall|j: int|
            0 <= j < hs.len() && (first_hash(hs, h) < 0 || j < first_hash(hs, h)) ==> #[trigger] hs[j] != h,
    decreases hs.len(),
{
    if hs.len() > 0 {
        let d = hs.drop_last();
        lemma_first_hash(d, h);
        assert forall|j: int|
            0 <= j < hs.len() && (first_hash(hs, h) < 0 || j < first_hash(hs, h)) implies #[trigger] hs[j] != h by {
            if j < hs.len() - 1 {
                assert(d[j] == hs[j]);
            }
        }
    }
}

proof fn lemma_first_hash_is(hs: Seq<Seq<char>>, h: Seq<char>, i: int)
    requires
        0 <= i <= hs.len(),
        i < hs.len() ==> hs[i] == h,
        forall|j: int| 0 <= j < i ==> #[trigger] hs[j] != h,
    ensures
        first_hash(hs, h) == (if i < hs.len() { i } else { -1 }),
    decreases hs.len(),
{
    if hs.len() > 0 {
        let d = hs.drop_last();
        let k = if i < hs.len() - 1 { i } else { hs.len() - 1 };
        assert forall|j: int| 0 <= j < k implies #[trigger] d[j] != h by {
            assert(d[j] == hs[j]);
        }
        lemma_first_hash_is(d, h, k);
    }
}

// ── Password-reset tokens ───────────────────────────────────────────────────

/// A stored reset token: the hash of the mailed token, its user, whether
/// it was used, and when it expires (Unix seconds).
pub struct ResetTokenRow {
    pub token_hash: String,
    pub user_id: String,
    pub used: bool,
    pub expires_at: i64,
}

/// A signed-in session of a user.
pub struct SessionRow {
    pub user_id: String,
    pub token_hash: String,
}

pub open spec fn reset_hashes(ts: Seq<ResetTokenRow>) -> Seq<Seq<char>> {
    ts.map_values(|t: ResetTokenRow| t.token_hash@)
}

pub open spec fn session_users(ss: Seq<SessionRow>) -> Seq<Seq<char>> {
    ss.map_values(|s: SessionRow| s.user_id@)
}

/// The sessions that survive the end of every session of `user`, in order.
pub open spec fn sessions_without(ss: Seq<SessionRow>, user: Seq<char>) -> Seq<SessionRow>
    decreases ss.len(),
{
    if ss.len() == 0 {
        ss
    } else {
        let rest = sessions_without(ss.drop_last(), user);
        if ss.last().user_id@ == user {
            rest
        } else {
            rest.push(ss.last())
        }
    }
}

proof fn lemma_sessions_without(ss: Seq<SessionRow>, user: Seq<char>)
    ensures
        forall|i: int| 0 <= i < sessions_without(ss, user).len() ==> #[trigger] sessions_without(ss, user)[i].user_id@
            != user,
    decreases ss.len(),
{
    if ss.len() > 0 {
        let rest = sessions_without(ss.drop_last(), user);
        lemma_sessions_without(ss.drop_last(), user);
        if ss.last().user_id@ != user {
            assert forall|i: int| 0 <= i < rest.push(ss.last()).len() implies #[trigger] rest.push(ss.last())[i].user_id@
                != user by {
                if i < rest.len() {
                    assert(rest.push(ss.last())[i] == rest[i]);
                }
            }
        }
    }
}

/// The outcome of presenting a reset token (by its hash) at time `now`: the
/// token must exist, be unused and unexpired; then it is marked used and
/// every session of its user ends. Gives the user.
pub open spec fn redeem_outcome(ts: Seq<ResetTokenRow>, h: Seq<char>, now: i64) -> Result<Seq<char>, (ErrKind, Seq<char>)> {
    let i = first_hash(reset_hashes(ts), h);
    if i < 0 {
        Err((ErrKind::BadRequest, "invalid or expired reset token"@))
    } else if ts[i].used {
        Err((ErrKind::BadRequest, "reset token already used"@))
    } else if now > ts[i].expires_at {
        Err((ErrKind::BadRequest, "reset token expired"@))
    } else {
        Ok(ts[i].user_id@)
    }
}

/// `POST /auth/reset-password` on the stores: a valid token is marked used
/// and every session of its user is deleted; a refused one changes nothing.
pub fn redeem_reset_token(
    tokens: &mut Vec<ResetTokenRow>,
    sessions: &mut Vec<SessionRow>,
    token_hash: &str,
    now: i64,
) -> (r: Result<String, AppError>)
    ensures
        match redeem_outcome(old(tokens)@, token_hash@, now) {
            Err(p) => r matches Err(e) && e.as_pair() == p && final(tokens)@ == old(tokens)@ && final(sessions)@
                == old(sessions)@,
            Ok(u) => r matches Ok(x) && x@ == u && {
                let i = first_hash(reset_hashes(old(tokens)@), token_hash@);
                &&& final(tokens)@.len() == old(tokens)@.len()
                &&& forall|j: int| 0 <= j < old(tokens)@.len() && j != i ==> #[trigger] final(tokens)@[j] == old(tokens)@[j]
                &&& final(tokens)@[i].used
                &&& final(tokens)@[i].token_hash@ == old(tokens)@[i].token_hash@
                &&& final(tokens)@[i].user_id@ == old(tokens)@[i].user_id@
                &&& final(tokens)@[i].expires_at == old(tokens)@[i].expires_at
                &&& final(sessions)@ == sessions_without(old(sessions)@, u)
            },
        },
{
    let ghost hs = reset_hashes(tokens@);
    let mut i: usize = 0;
    while i < tokens.len()
        invariant
            i <= tokens.len(),
            hs == reset_hashes(tokens@),
            forall|j: int| 0 <= j < i ==> #[trigger] hs[j] != token_hash@,
        ensures
            i <= tokens.len(),
            forall|j: int| 0 <= j < i ==> #[trigger] hs[j] != token_hash@,
            i < tokens.len() ==> hs[i as int] == token_hash@,
        decreases tokens.len() - i,
    {
        if str_eq(tokens[i].token_hash.as_str(), token_hash) {
            break;
        }
        i = i + 1;
    }
    proof {
        lemma_first_hash_is(hs, token_hash@, i as int);
    }
    if i == tokens.len() {
        return Err(bad_request("invalid or expired reset token"));
    }
    if tokens[i].used {
        return Err(bad_request("reset token already used"));
    }
    if now > tokens[i].expires_at {
        return Err(bad_request("reset token expired"));
    }
    let user = tokens[i].user_id.clone();
    let row = ResetTokenRow {
        token_hash: tokens[i].token_hash.clone(),
        user_id: tokens[i].user_id.clone(),
        used: true,
        expires_at: tokens[i].expires_at,
    };
    tokens.set(i, row);
    let mut kept: Vec<SessionRow> = Vec::new();
    let mut k: usize = 0;
    while k < sessions.len()
        invariant
            k <= sessions.len(),
            kept@ == sessions_without(sessions@.take(k as int), user@),
        decreases sessions.len() - k,
    {
        assert(sessions@.take(k + 1).drop_last() =~= sessions@.take(k as int));
        if !str_eq(sessions[k].user_id.as_str(), user.as_str()) {
            kept.push(SessionRow { user_id: sessions[k].user_id.clone(), token_hash: sessions[k].token_hash.clone() });
        }
        k = k + 1;
    }
    assert(sessions@.take(k as int) =~= sessions@);
    *sessions = kept;
    Ok(user)
}

/// A reset token works once: after a successful reset, presenting the same
/// token again is refused as already used, and no session of its user is
/// left.
pub proof fn reset_token_works_once(
    before: Seq<ResetTokenRow>,
    after: Seq<ResetTokenRow>,
    sessions_before: Seq<SessionRow>,
    sessions_after: Seq<SessionRow>,
    h: Seq<char>,
    now: i64,
    later: i64,
)
    requires
        redeem_outcome(before, h, now) is Ok,
        after.len() == before.len(),
        forall|j: int|
            0 <= j < before.len() && j != first_hash(reset_hashes(before), h) ==> #[trigger] after[j] == before[j],
        after[first_hash(reset_hashes(before), h)].used,
        after[first_hash(reset_hashes(before), h)].token_hash@ == h,
        sessions_after == sessions_without(sessions_before, redeem_outcome(before, h, now)->Ok_0),
    ensures
        redeem_outcome(after, h, later) == Err::<Seq<char>, (ErrKind, Seq<char>)>(
            (ErrKind::BadRequest, "reset token already used"@),
        ),
        forall|k: int| 0 <= k < sessions_after.len() ==> #[trigger] sessions_after[k].user_id@ != redeem_outcome(
            before,
            h,
            now,
        )->Ok_0,
{
    let i = first_hash(reset_hashes(before), h);
    lemma_first_hash(reset_hashes(before), h);
    assert forall|j: int| 0 <= j < i implies #[trigger] reset_hashes(after)[j] != h by {
        assert(after[j] == before[j]);
        assert(reset_hashes(before)[j] != h);
    }
    assert(reset_hashes(after)[i] == h);
    lemma_first_hash_is(reset_hashes(after), h, i);
    lemma_sessions_without(sessions_before, redeem_outcome(before, h, now)->Ok_0);
}

// ── Refresh tokens ──────────────────────────────────────────────────────────

/// A stored refresh token: the hash of the token, its user and its expiry
/// (Unix seconds).
pub struct RefreshRow {
    pub token_hash: String,
    pub user_id: String,
    pub expires_at: i64,
}

pub open spec fn refresh_hashes(rs: Seq<RefreshRow>) -> Seq<Seq<char>> {
    rs.map_values(|t: RefreshRow| t.token_hash@)
}

/// What presenting a refresh token (by its hash) at `now` does: an unknown
/// token is refused; an expired one is deleted and refused; a live one is
/// deleted (rotation) and, when the account is still active, replaced by
/// the freshly issued token. Gives the user.
pub open spec fn refresh_outcome(rs: Seq<RefreshRow>, h: Seq<char>, now: i64, user_active: i8) -> Result<
    Seq<char>,
    (ErrKind, Seq<char>),
> {
    let i = first_hash(refresh_hashes(rs), h);
    if i < 0 {
        Err((ErrKind::Unauthorized, "invalid refresh token"@))
    } else if now > rs[i].expires_at {
        Err((ErrKind::Unauthorized, "refresh token expired"@))
    } else if user_active == 0 {
        Err((ErrKind::Forbidden, "account disabled"@))
    } else {
        Ok(rs[i].user_id@)
    }
}

/// `POST /auth/refresh` on the refresh-token store: the presented token's
/// row is removed whenever it is found (expired or not); on success the new
/// token (`fresh_hash`, expiring at `fresh_expires`) is stored for the same
/// user.
pub fn rotate_refresh(
    rows: &mut Vec<RefreshRow>,
    token_hash: &str,
    now: i64,
    user_active: i8,
    fresh_hash: &str,
    fresh_expires: i64,
) -> (r: Result<String, AppError>)
    ensures
        ({
            let i = first_hash(refresh_hashes(old(rows)@), token_hash@);
            let without = old(rows)@.remove(i);
            &&& match refresh_outcome(old(rows)@, token_hash@, now, user_active) {
                Err(p) => r matches Err(e) && e.as_pair() == p,
                Ok(u) => r matches Ok(x) && x@ == u,
            }
            &&& i < 0 ==> final(rows)@ == old(rows)@
            &&& i >= 0 && r is Err ==> final(rows)@ == without
            &&& r is Ok ==> final(rows)@.len() == without.len() + 1 && final(rows)@.drop_last() == without
                && final(rows)@.last().token_hash@ == fresh_hash@ && final(rows)@.last().user_id@
                == old(rows)@[i].user_id@ && final(rows)@.last().expires_at == fresh_expires
        }),
{
    let ghost hs = refresh_hashes(rows@);
    let mut i: usize = 0;
    while i < rows.len()
        invariant
            i <= rows.len(),
            hs == refresh_hashes(rows@),
            forall|j: int| 0 <= j < i ==> #[trigger] hs[j] != token_hash@,
        ensures
            i <= rows.len(),
            forall|j: int| 0 <= j < i ==> #[trigger] hs[j] != token_hash@,
            i < rows.len() ==> hs[i as int] == token_hash@,
        decreases rows.len() - i,
    {
        if str_eq(rows[i].token_hash.as_str(), token_hash) {
            break;
        }
        i = i + 1;
    }
    proof {
        lemma_first_hash_is(hs, token_hash@, i as int);
    }
    if i == rows.len() {
        return Err(unauthorized("invalid refresh token"));
    }
    let expired = now > rows[i].expires_at;
    let user = rows[i].user_id.clone();
    rows.remove(i);
    if expired {
        return Err(unauthorized("refresh token expired"));
    }
    if user_active == 0 {
        return Err(crate::error::forbidden("account disabled"));
    }
    rows.push(RefreshRow { token_hash: owned(fresh_hash), user_id: user.clone(), expires_at: fresh_expires });
    Ok(user)
}

/// The UUID in its simple form: the hyphenated text without its four
/// hyphens.
pub open spec fn simple_uuid(h: Seq<char>) -> Seq<char> {
    h.subrange(0, 8) + h.subrange(9, 13) + h.subrange(14, 18) + h.subrange(19, 23) + h.subrange(24, 36)
}

/// A new refresh token: `qs_rt_` and a random UUID in its simple form (32
/// lowercase hexadecimal digits).
pub fn new_refresh_token() -> (t: String)
    ensures
        t@.len() == 38,
        t@.subrange(0, 6) == "qs_rt_"@,
        forall|i: int| 6 <= i < 38 ==> is_lower_hex(#[trigger] t@[i]),
{
    let id = new_uuid_text();
    let c = chars_of(id.as_str());
    let mut out: Vec<char> = Vec::new();
    push_str(&mut out, "qs_rt_");
    let a = slice_chars(&c, 0, 8);
    push_all(&mut out, &a);
    let b = slice_chars(&c, 9, 13);
    push_all(&mut out, &b);
    let d = slice_chars(&c, 14, 18);
    push_all(&mut out, &d);
    let e = slice_chars(&c, 19, 23);
    push_all(&mut out, &e);
    let f = slice_chars(&c, 24, 36);
    push_all(&mut out, &f);
    proof {
        reveal_strlit("qs_rt_");
        let h = id@;
        assert(out@ =~= "qs_rt_"@ + simple_uuid(h));
        assert forall|i: int| 6 <= i < 38 implies is_lower_hex(#[trigger] out@[i]) by {
            let k = i - 6;
            let src = if k < 8 { k } else if k < 12 { k + 1 } else if k < 16 { k + 2 } else if k < 20 { k + 3 } else { k + 4 };
            assert(out@[i] == h[src]);
            assert(hyphenated_uuid(h));
            assert(src != 8 && src != 13 && src != 18 && src != 23);
        }
    }
    string_of(&out)
}

/// Refresh rotates its token: after a successful refresh the presented
/// token is refused (its hash is no longer stored, when the store held it
/// once and the fresh token differs), and the fresh token is stored for the
/// same user.
pub proof fn refresh_rotates(
    before: Seq<RefreshRow>,
    after: Seq<RefreshRow>,
    h: Seq<char>,
    fresh: Seq<char>,
    now: i64,
    later: i64,
    active: i8,
    active_later: i8,
)
    requires
        refresh_outcome(before, h, now, active) is Ok,
        forall|a: int, b: int|
            0 <= a < b < before.len() ==> #[trigger] before[a].token_hash@ != #[trigger] before[b].token_hash@,
        fresh != h,
        after.drop_last() == before.remove(first_hash(refresh_hashes(before), h)),
        after.len() == before.len(),
        after.last().token_hash@ == fresh,
    ensures
        refresh_outcome(after, h, later, active_later) == Err::<Seq<char>, (ErrKind, Seq<char>)>(
            (ErrKind::Unauthorized, "invalid refresh token"@),
        ),
        first_hash(refresh_hashes(after), fresh) >= 0,
{
    let i = first_hash(refresh_hashes(before), h);
    lemma_first_hash(refresh_hashes(before), h);
    let w = before.remove(i);
    assert forall|j: int| 0 <= j < after.len() implies #[trigger] refresh_hashes(after)[j] != h by {
        if j < after.len() - 1 {
            assert(after[j] == w[j]);
            if j < i {
                assert(w[j] == before[j]);
                assert(before[j].token_hash@ != before[i].token_hash@);
            } else {
                assert(w[j] == before[j + 1]);
                assert(before[i].token_hash@ != before[j + 1].token_hash@);
            }
        } else {
            assert(after[j].token_hash@ == fresh);
        }
    }
    lemma_first_hash_is(refresh_hashes(after), h, after.len() as int);
    lemma_first_hash(refresh_hashes(after), fresh);
    if first_hash(refresh_hashes(after), fresh) < 0 {
        assert(refresh_hashes(after)[after.len() - 1] == fresh);
    }
}

} // verus!
