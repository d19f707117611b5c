//! The network view of a project: the fixed IPs its apps hold, grouped by
//! app, and when an app's IPs may be released or reassigned.

use vstd::prelude::*;
use crate::error::{bad_request, internal, AppError, ErrKind};
use crate::text::{cat2, chars_of, copy_opt, owned, str_eq};

verus! {

// ── String order ────────────────────────────────────────────────────────────

/// Lexicographic order of strings by code point. This is the order of
/// `String`'s `Ord`: UTF-8 byte order agrees with code point order.
pub open spec fn lex_lt(a: Seq<char>, b: Seq<char>) -> bool
    decreases a.len(),
{
    if b.len() == 0 {
        false
    } else if a.len() == 0 {
        true
    } else if a[0] != b[0] {
        a[0] < b[0]
    } else {
        lex_lt(a.drop_first(), b.drop_first())
    }
}

/// No string is below itself.
pub proof fn lemma_lex_irreflexive(a: Seq<char>)
    ensures
        !lex_lt(a, a),
    decreases a.len(),
{
    if a.len() > 0 {
        lemma_lex_irreflexive(a.drop_first());
    }
}

/// Two different strings are ordered one way or the other.
pub proof fn lemma_lex_total(a: Seq<char>, b: Seq<char>)
    requires
        a != b,
    ensures
        lex_lt(a, b) || lex_lt(b, a),
    decreases a.len(),
{
    if a.len() == 0 && b.len() == 0 {
        assert(a =~= b);
    } else if a.len() > 0 && b.len() > 0 && a[0] == b[0] {
        if a.drop_first() == b.drop_first() {
            assert(a.drop_first().len() == b.drop_first().len());
            assert(a.len() == b.len());
            assert forall|i: int| 0 <= i < a.len() implies a[i] == b[i] by {
                if i > 0 {
                    assert(a[i] == a.drop_first()[i - 1]);
                    assert(b[i] == b.drop_first()[i - 1]);
                }
            }
            assert(a =~= b);
        }
        lemma_lex_total(a.drop_first(), b.drop_first());
    }
}

/// The order is asymmetric.
pub proof fn lemma_lex_asymmetric(a: Seq<char>, b: Seq<char>)
    requires
        lex_lt(a, b),
    ensures
        !lex_lt(b, a),
    decreases a.len(),
{
    if a.len() > 0 && b.len() > 0 && a[0] == b[0] {
        lemma_lex_asymmetric(a.drop_first(), b.drop_first());
    }
}

/// The order is transitive.
pub proof fn lemma_lex_transitive(a: Seq<char>, b: Seq<char>, c: Seq<char>)
    requires
        lex_lt(a, b),
        lex_lt(b, c),
    ensures
        lex_lt(a, c),
    decreases a.len(),
{
    if a.len() > 0 && b.len() > 0 && c.len() > 0 && a[0] == b[0] && b[0] == c[0] {
        lemma_lex_transitive(a.drop_first(), b.drop_first(), c.drop_first());
    }
}

/// Whether `a` sorts strictly before `b`.
pub fn lex_less(a: &str, b: &str) -> (r: bool)
    ensures
        r == lex_lt(a@, b@),
{
    let x = chars_of(a);
    let y = chars_of(b);
    assert(x@.skip(0) =~= x@);
    assert(y@.skip(0) =~= y@);
    let mut i: usize = 0;
    while i < x.len() && i < y.len()
        invariant
            x@ == a@,
            y@ == b@,
            i <= x.len(),
            i <= y.len(),
            lex_lt(a@, b@) == lex_lt(x@.skip(i as int), y@.skip(i as int)),
        decreases x.len() - i,
    {
        if x[i] != y[i] {
            return x[i] < y[i];
        }
        assert(x@.skip(i as int).drop_first() =~= x@.skip(i as int + 1));
        assert(y@.skip(i as int).drop_first() =~= y@.skip(i as int + 1));
        i += 1;
    }
    i < y.len()
}

// ── Allocations grouped by app ──────────────────────────────────────────────

/// One fixed-IP allocation of an app, as the project listing reads it.
pub struct AllocationRow {
    pub app_id: String,
    pub app_name: String,
    pub app_status: String,
    pub ip_address: String,
    pub pool_id: String,
    pub pool_name: String,
    pub pool_type: String,
    pub gateway: Option<String>,
    pub created_at: String,
}

/// An IP as listed under its app.
pub struct AllocatedIp {
    pub ip_address: String,
    pub pool_id: String,
    pub pool_name: String,
    pub pool_type: String,
    pub gateway: Option<String>,
    pub allocated_at: String,
}

/// The IPs of one app.
pub struct AppAllocations {
    pub app_id: String,
    pub app_name: String,
    pub app_status: String,
    pub ips: Vec<AllocatedIp>,
}

/// The listed form of an allocation row.
pub open spec fn ip_of(r: AllocationRow) -> AllocatedIp {
    AllocatedIp {
        ip_address: r.ip_address,
        pool_id: r.pool_id,
        pool_name: r.pool_name,
        pool_type: r.pool_type,
        gateway: r.gateway,
        allocated_at: r.created_at,
    }
}

/// The IPs of app `k` among the first `n` rows, in row order.
pub open spec fn ips_of_app(rows: Seq<AllocationRow>, n: nat, k: Seq<char>) -> Seq<AllocatedIp>
    decreases n,
{
    if n == 0 {
        Seq::empty()
    } else {
        let prev = ips_of_app(rows, (n - 1) as nat, k);
        if rows[n - 1].app_id@ == k {
            prev.push(ip_of(rows[n - 1]))
        } else {
            prev
        }
    }
}

/// Groups in strictly increasing order of app id.
pub open spec fn groups_sorted(gs: Seq<AppAllocations>) -> bool {
    forall|i: int, j: int| 0 <= i < j < gs.len() ==> lex_lt(#[trigger] gs[i].app_id@, #[trigger] gs[j].app_id@)
}

/// Some group is that of app `k`.
pub open spec fn has_group(gs: Seq<AppAllocations>, k: Seq<char>) -> bool {
    exists|j: int| 0 <= j < gs.len() && #[trigger] gs[j].app_id@ == k
}

/// Row `i` is the first row of its app.
pub open spec fn first_of_app(rows: Seq<AllocationRow>, i: int) -> bool {
    forall|h: int| 0 <= h < i ==> (#[trigger] rows[h]).app_id@ != rows[i].app_id@
}

/// The group carries the app id, name and status of the first row of its
/// app among the first `n` rows.
pub open spec fn opened_by(g: AppAllocations, rows: Seq<AllocationRow>, n: int) -> bool {
    exists|i: int|
        0 <= i < n && first_of_app(rows, i) && (#[trigger] rows[i]).app_id@ == g.app_id@ && rows[i].app_name@
            == g.app_name@ && rows[i].app_status@ == g.app_status@
}

/// One group per app: the groups of a listing carry distinct app ids.
pub proof fn groups_are_distinct(gs: Seq<AppAllocations>)
    requires
        groups_sorted(gs),
    ensures
        forall|i: int, j: int| 0 <= i < j < gs.len() ==> (#[trigger] gs[i]).app_id@ != (#[trigger] gs[j]).app_id@,
{
    assert forall|i: int, j: int| 0 <= i < j < gs.len() implies (#[trigger] gs[i]).app_id@ != (#[trigger] gs[j]).app_id@ by {
        if gs[i].app_id@ == gs[j].app_id@ {
            lemma_lex_irreflexive(gs[i].app_id@);
        }
    }
}

proof fn lemma_no_ips(rows: Seq<AllocationRow>, n: nat, k: Seq<char>)
    requires
        n <= rows.len(),
        forall|h: int| 0 <= h < n ==> (#[trigger] rows[h]).app_id@ != k,
    ensures
        ips_of_app(rows, n, k) == Seq::<AllocatedIp>::empty(),
    decreases n,
{
    if n > 0 {
        assert(rows[n - 1].app_id@ != k);
        lemma_no_ips(rows, (n - 1) as nat, k);
    }
}

fn copy_ip(r: &AllocationRow) -> (ip: AllocatedIp)
    ensures
        ip == ip_of(*r),
{
    AllocatedIp {
        ip_address: r.ip_address.clone(),
        pool_id: r.pool_id.clone(),
        pool_name: r.pool_name.clone(),
        pool_type: r.pool_type.clone(),
        gateway: copy_opt(&r.gateway),
        allocated_at: r.created_at.clone(),
    }
}

fn find_group(gs: &Vec<AppAllocations>, k: &str) -> (r: Option<usize>)
    ensures
        match r {
            Some(j) => j < gs.len() && gs@[j as int].app_id@ == k@,
            None => forall|j: int| 0 <= j < gs.len() ==> (#[trigger] gs@[j]).app_id@ != k@,
        },
{
    let mut j: usize = 0;
    while j < gs.len()
        invariant
            j <= gs.len(),
            forall|h: int| 0 <= h < j ==> (#[trigger] gs@[h]).app_id@ != k@,
        decreases gs.len() - j,
    {
        if str_eq(gs[j].app_id.as_str(), k) {
            return Some(j);
        }
        j += 1;
    }
    None
}

fn insert_position(gs: &Vec<AppAllocations>, k: &str) -> (p: usize)
    requires
        groups_sorted(gs@),
        forall|j: int| 0 <= j < gs.len() ==> (#[trigger] gs@[j]).app_id@ != k@,
    ensures
        p <= gs.len(),
        forall|h: int| 0 <= h < p ==> lex_lt((#[trigger] gs@[h]).app_id@, k@),
        forall|h: int| p <= h < gs.len() ==> lex_lt(k@, (#[trigger] gs@[h]).app_id@),
{
    let mut p: usize = 0;
    while p < gs.len()
        invariant
            p <= gs.len(),
            groups_sorted(gs@),
            forall|j: int| 0 <= j < gs.len() ==> (#[trigger] gs@[j]).app_id@ != k@,
            forall|h: int| 0 <= h < p ==> lex_lt((#[trigger] gs@[h]).app_id@, k@),
        decreases gs.len() - p,
    {
        if lex_less(k, gs[p].app_id.as_str()) {
            proof {
                assert forall|h: int| p <= h < gs.len() implies lex_lt(k@, (#[trigger] gs@[h]).app_id@) by {
                    if h > p {
                        lemma_lex_transitive(k@, gs@[p as int].app_id@, gs@[h].app_id@);
                    }
                }
            }
            return p;
        }
        proof {
            lemma_lex_total(k@, gs@[p as int].app_id@);
        }
        p += 1;
    }
    p
}

/// The project's allocations grouped by app, in the order of app id (the
/// order of a map keyed by it): each group carries the app's id, name and
/// status as its first row gives them, and the app's IPs in row order.
pub fn group_allocations(rows: &Vec<AllocationRow>) -> (gs: Vec<AppAllocations>)
    ensures
        groups_sorted(gs@),
        forall|i: int| 0 <= i < rows.len() ==> has_group(gs@, (#[trigger] rows@[i]).app_id@),
        forall|j: int| 0 <= j < gs.len() ==> opened_by(#[trigger] gs@[j], rows@, rows.len() as int),
        forall|j: int| 0 <= j < gs.len() ==> (#[trigger] gs@[j]).ips@ == ips_of_app(rows@, rows.len() as nat, gs@[j].app_id@),
{
    let mut gs: Vec<AppAllocations> = Vec::new();
    let mut n: usize = 0;
    while n < rows.len()
        invariant
            n <= rows.len(),
            groups_sorted(gs@),
            forall|i: int| 0 <= i < n ==> has_group(gs@, (#[trigger] rows@[i]).app_id@),
            forall|j: int| 0 <= j < gs.len() ==> opened_by(#[trigger] gs@[j], rows@, n as int),
            forall|j: int| 0 <= j < gs.len() ==> (#[trigger] gs@[j]).ips@ == ips_of_app(rows@, n as nat, gs@[j].app_id@),
        decreases rows.len() - n,
    {
        let row = &rows[n];
        let ghost k = row.app_id@;
        let ip = copy_ip(row);
        let ghost old_gs = gs@;
        match find_group(&gs, row.app_id.as_str()) {
            Some(j) => {
                gs[j].ips.push(ip);
                proof {
                    assert forall|h: int| 0 <= h < gs.len() implies (#[trigger] gs@[h]).ips@ == ips_of_app(
                        rows@,
                        (n + 1) as nat,
                        gs@[h].app_id@,
                    ) by {
                        assert(ips_of_app(rows@, (n + 1) as nat, gs@[h].app_id@) == (if rows@[n as int].app_id@
                            == gs@[h].app_id@ {
                            ips_of_app(rows@, n as nat, gs@[h].app_id@).push(ip_of(rows@[n as int]))
                        } else {
                            ips_of_app(rows@, n as nat, gs@[h].app_id@)
                        }));
                        if h != j {
                            assert(gs@[h] == old_gs[h]);
                            assert(old_gs[h].app_id@ != k) by {
                                if old_gs[h].app_id@ == k {
                                    lemma_lex_irreflexive(k);
                                }
                            }
                        }
                    }
                    assert forall|i: int| 0 <= i < n + 1 implies has_group(gs@, (#[trigger] rows@[i]).app_id@) by {
                        if i < n {
                            let w = choose|w: int| 0 <= w < old_gs.len() && #[trigger] old_gs[w].app_id@ == rows@[i].app_id@;
                            assert(gs@[w].app_id@ == old_gs[w].app_id@);
                        } else {
                            assert(gs@[j as int].app_id@ == k);
                        }
                    }
                    assert forall|h: int| 0 <= h < gs.len() implies opened_by(#[trigger] gs@[h], rows@, n + 1) by {
                        assert(opened_by(old_gs[h], rows@, n as int));
                        let w = choose|w: int|
                            0 <= w < n && first_of_app(rows@, w) && (#[trigger] rows@[w]).app_id@ == old_gs[h].app_id@
                                && rows@[w].app_name@ == old_gs[h].app_name@ && rows@[w].app_status@
                                == old_gs[h].app_status@;
                        assert(rows@[w].app_id@ == gs@[h].app_id@);
                    }
                }
            },
            None => {
                let p = insert_position(&gs, row.app_id.as_str());
                let mut ips: Vec<AllocatedIp> = Vec::new();
                ips.push(ip);
                let g = AppAllocations {
                    app_id: row.app_id.clone(),
                    app_name: row.app_name.clone(),
                    app_status: row.app_status.clone(),
                    ips,
                };
                gs.insert(p, g);
                proof {
                    assert forall|h: int| 0 <= h < n implies (#[trigger] rows@[h]).app_id@ != k by {
                        let w = choose|w: int| 0 <= w < old_gs.len() && #[trigger] old_gs[w].app_id@ == rows@[h].app_id@;
                    }
                    lemma_no_ips(rows@, n as nat, k);
                    assert(first_of_app(rows@, n as int));
                    assert forall|a: int, b: int| 0 <= a < b < gs.len() implies lex_lt(
                        #[trigger] gs@[a].app_id@,
                        #[trigger] gs@[b].app_id@,
                    ) by {
                        if a < p && b < p {
                            assert(gs@[a] == old_gs[a] && gs@[b] == old_gs[b]);
                        } else if a < p && b == p {
                            assert(gs@[a] == old_gs[a]);
                        } else if a < p {
                            assert(gs@[a] == old_gs[a] && gs@[b] == old_gs[b - 1]);
                        } else if a == p {
                            assert(gs@[b] == old_gs[b - 1]);
                        } else {
                            assert(gs@[a] == old_gs[a - 1] && gs@[b] == old_gs[b - 1]);
                        }
                    }
                    assert forall|i: int| 0 <= i < n + 1 implies has_group(gs@, (#[trigger] rows@[i]).app_id@) by {
                        if i < n {
                            let w = choose|w: int| 0 <= w < old_gs.len() && #[trigger] old_gs[w].app_id@ == rows@[i].app_id@;
                            if w < p {
                                assert(gs@[w] == old_gs[w]);
                            } else {
                                assert(gs@[w + 1] == old_gs[w]);
                            }
                        } else {
                            assert(gs@[p as int].app_id@ == k);
                        }
                    }
                    assert forall|h: int| 0 <= h < gs.len() implies opened_by(#[trigger] gs@[h], rows@, n + 1) by {
                        if h == p {
                            assert(rows@[n as int].app_id@ == gs@[h].app_id@);
                        } else {
                            let o = if h < p { h } else { h - 1 };
                            assert(gs@[h] == old_gs[o]);
                            assert(opened_by(old_gs[o], rows@, n as int));
                            let w = choose|w: int|
                                0 <= w < n && first_of_app(rows@, w) && (#[trigger] rows@[w]).app_id@
                                    == old_gs[o].app_id@ && rows@[w].app_name@ == old_gs[o].app_name@
                                    && rows@[w].app_status@ == old_gs[o].app_status@;
                            assert(rows@[w].app_id@ == gs@[h].app_id@);
                        }
                    }
                    assert forall|h: int| 0 <= h < gs.len() implies (#[trigger] gs@[h]).ips@ == ips_of_app(
                        rows@,
                        (n + 1) as nat,
                        gs@[h].app_id@,
                    ) by {
                        assert(ips_of_app(rows@, (n + 1) as nat, gs@[h].app_id@) == (if rows@[n as int].app_id@
                            == gs@[h].app_id@ {
                            ips_of_app(rows@, n as nat, gs@[h].app_id@).push(ip_of(rows@[n as int]))
                        } else {
                            ips_of_app(rows@, n as nat, gs@[h].app_id@)
                        }));
                        if h == p {
                            assert(gs@[h].ips@ =~= seq![ip_of(rows@[n as int])]);
                            assert(Seq::<AllocatedIp>::empty().push(ip_of(rows@[n as int])) =~= seq![
                                ip_of(rows@[n as int]),
                            ]);
                        } else {
                            let o = if h < p { h } else { h - 1 };
                            assert(gs@[h] == old_gs[o]);
                        }
                    }
                }
            },
        }
        n += 1;
    }
    gs
}

// ── Releasing and reassigning ───────────────────────────────────────────────

/// IPs are only taken from an app that is not running.
pub open spec fn ips_changeable(status: Seq<char>) -> bool {
    status == "STOPPED"@ || status == "FAILED"@
}

/// `DELETE /projects/:pid/apps/:aid/network`: the app must be STOPPED or
/// FAILED before its IPs are released.
pub fn check_ips_releasable(status: &str) -> (r: Result<(), AppError>)
    ensures
        r is Ok <==> ips_changeable(status@),
        r matches Err(e) ==> e.as_pair() == (
            ErrKind::BadRequest,
            "app must be STOPPED or FAILED before releasing its IPs"@,
        ),
{
    if !(str_eq(status, "STOPPED") || str_eq(status, "FAILED")) {
        return Err(bad_request("app must be STOPPED or FAILED before releasing its IPs"));
    }
    Ok(())
}

/// `POST /projects/:pid/apps/:aid/network/reassign`: the same rule, with its
/// own message.
pub fn check_ips_reassignable(status: &str) -> (r: Result<(), AppError>)
    ensures
        r is Ok <==> ips_changeable(status@),
        r matches Err(e) ==> e.as_pair() == (ErrKind::BadRequest, "app must be STOPPED or FAILED to reassign IPs"@),
{
    if !(str_eq(status, "STOPPED") || str_eq(status, "FAILED")) {
        return Err(bad_request("app must be STOPPED or FAILED to reassign IPs"));
    }
    Ok(())
}

/// The app named in the path must belong to the project (404 `app <id>`).
pub fn require_app_in_project(count: i64, app_id: &str) -> (r: Result<(), AppError>)
    ensures
        r is Ok <==> count != 0,
        r matches Err(e) ==> e.as_pair() == (ErrKind::NotFound, "app "@ + app_id@),
{
    if count == 0 {
        return Err(AppError::NotFound(cat2("app ", app_id)));
    }
    Ok(())
}

/// Reassignment needs the active cluster of the app's pool.
pub fn require_active_cluster(cluster_id: Option<String>) -> (r: Result<String, AppError>)
    ensures
        match cluster_id {
            Some(c) => r == Ok::<String, AppError>(c),
            None => r matches Err(e) && e.as_pair() == (ErrKind::Internal, "no active cluster for app"@),
        },
{
    match cluster_id {
        Some(c) => Ok(c),
        None => Err(internal("no active cluster for app")),
    }
}

/// An address leased from a pool, with its prefix length.
pub struct IpLease {
    pub ip_with_prefix: String,
    pub gateway: Option<String>,
}

/// An address in the reassignment answer.
pub struct ReassignedIp {
    pub pool_type: String,
    pub ip_address: String,
    pub gateway: Option<String>,
}

pub open spec fn lease_entry(pool_type: Seq<char>, l: IpLease) -> (Seq<char>, Seq<char>, Option<Seq<char>>) {
    (pool_type, l.ip_with_prefix@, crate::text::opt_view(l.gateway))
}

pub open spec fn entry_view(r: ReassignedIp) -> (Seq<char>, Seq<char>, Option<Seq<char>>) {
    (r.pool_type@, r.ip_address@, crate::text::opt_view(r.gateway))
}

/// The entry of an optional lease.
pub open spec fn lease_part(pool_type: Seq<char>, o: Option<IpLease>) -> Seq<(Seq<char>, Seq<char>, Option<Seq<char>>)> {
    match o {
        Some(l) => seq![lease_entry(pool_type, l)],
        None => Seq::empty(),
    }
}

/// The leases after reassignment: the VPC one first, then the public one,
/// each present only if the app got one.
pub open spec fn reassigned_spec(vpc: Option<IpLease>, pub_zone: Option<IpLease>) -> Seq<
    (Seq<char>, Seq<char>, Option<Seq<char>>),
> {
    lease_part("vpc"@, vpc) + lease_part("pub"@, pub_zone)
}

/// Lists the IPs an app holds after reassignment.
pub fn reassigned_ips(vpc: &Option<IpLease>, pub_zone: &Option<IpLease>) -> (r: Vec<ReassignedIp>)
    ensures
        r@.map_values(|x: ReassignedIp| entry_view(x)) == reassigned_spec(*vpc, *pub_zone),
{
    let mut r: Vec<ReassignedIp> = Vec::new();
    let ghost a = lease_part("vpc"@, *vpc);
    match vpc {
        Some(l) => {
            r.push(ReassignedIp { pool_type: owned("vpc"), ip_address: l.ip_with_prefix.clone(), gateway: copy_opt(&l.gateway) });
        },
        None => {},
    }
    assert(r@.map_values(|x: ReassignedIp| entry_view(x)) =~= a);
    match pub_zone {
        Some(l) => {
            r.push(ReassignedIp { pool_type: owned("pub"), ip_address: l.ip_with_prefix.clone(), gateway: copy_opt(&l.gateway) });
        },
        None => {},
    }
    assert(r@.map_values(|x: ReassignedIp| entry_view(x)) =~= reassigned_spec(*vpc, *pub_zone));
    r
}

} // verus!
