//! Subscription plans and the subscription lifecycle.
//!
//! Plans define a named quota bundle with a price; a subscription links a
//! user to a plan for a period, and its plan quota is written to the user's
//! default project.

use vstd::prelude::*;
use crate::columns::{flag, flag_byte, patched};
use crate::error::{bad_request, forbidden, not_found, AppError, ErrKind};
use crate::money::{money_string, money_text};
use crate::text::{
    cat2, cat3, cat4, chars_of, copy_opt, dec, decimal_string, to_lowercase, trim, trim_str, unicode_lowercase,
    is_ascii_alnum, is_ascii_alnum_char, opt_view, owned, slice_chars, str_eq, string_of,
};

verus! {

// ── Requests ────────────────────────────────────────────────────────────────

pub struct SelfSubscribeRequest {
    pub plan_id: String,
    pub billing_cycle: Option<String>,
    pub auto_renew: Option<bool>,
}

pub struct CancelSubscriptionRequest {
    pub reason: Option<String>,
}

pub struct AdminListPlansQuery {
    pub include_inactive: Option<bool>,
    pub page: Option<u32>,
    pub per_page: Option<u32>,
}

pub struct AdminListSubsQuery {
    pub status: Option<String>,
    pub user_id: Option<String>,
    pub page: Option<u32>,
    pub per_page: Option<u32>,
}

pub struct AdminCancelSubRequest {
    pub reason: Option<String>,
    pub reset_quotas: Option<bool>,
}

/// An admin's plan assignment or quota patch; `expires_at` is a Unix time in
/// seconds.
pub struct AdminAssignRequest {
    pub plan_id: Option<String>,
    pub billing_cycle: Option<String>,
    pub expires_at: Option<i64>,
    pub auto_renew: Option<bool>,
    /// Skip writing plan quota to the default project (plan-assign mode only).
    pub skip_quota_apply: Option<bool>,
    pub quota_cpu_mcores: Option<u32>,
    pub quota_mem_mb: Option<u32>,
    pub quota_storage_gb: Option<u32>,
    pub quota_bandwidth_gb: Option<u32>,
    pub quota_domain_count: Option<u32>,
    pub quota_db_instances: Option<u32>,
    pub quota_apps: Option<u32>,
    pub quota_request_million: Option<u32>,
}

/// An admin's change to a subscription; `expires_at` is a Unix time in
/// seconds.
pub struct AdminUpdateSubRequest {
    pub expires_at: Option<i64>,
    pub auto_renew: Option<bool>,
    pub status: Option<String>,
    pub cancel_reason: Option<String>,
}

// ── Self-service subscription ───────────────────────────────────────────────

/// What the subscription route reads of a plan; prices in cents.
pub struct PlanOffer {
    pub price_monthly: i64,
    pub price_annually: Option<i64>,
    pub is_public: bool,
}

/// The platform settings that govern self-service subscriptions.
pub struct SubscribeSettings {
    /// `subscription_self_service` (default `1`).
    pub self_service: Option<String>,
    /// `subscription_allow_downgrade` (default `1`).
    pub allow_downgrade: Option<String>,
    /// `billing_enabled` (default `0`).
    pub billing_enabled: Option<String>,
}

/// The subscription to record: its cycle, price (cents), length in days,
/// renewal flag, and the wallet balance after paying, when the wallet is
/// charged.
pub struct SubscribeTerms {
    pub billing_cycle: String,
    pub price: i64,
    pub days: u32,
    pub auto_renew: bool,
    pub balance_after: Option<i64>,
}

pub open spec fn setting_is(o: Option<Seq<char>>, default: Seq<char>, v: Seq<char>) -> bool {
    match o {
        Some(x) => x == v,
        None => default == v,
    }
}

pub open spec fn cycle_of(b: SelfSubscribeRequest) -> Seq<char> {
    match b.billing_cycle {
        Some(c) => c@,
        None => "MONTHLY"@,
    }
}

/// The price of the chosen cycle, when the plan offers it.
pub open spec fn cycle_price(cycle: Seq<char>, plan: PlanOffer) -> Option<i64> {
    if cycle == "ANNUALLY"@ {
        plan.price_annually
    } else {
        Some(plan.price_monthly)
    }
}

/// The refusal for a wallet that does not cover the price; a user without
/// a wallet has `0` (written without decimals, as the zero amount is).
pub open spec fn insufficient_message(price: i64, balance: Option<i64>) -> Seq<char> {
    "insufficient balance: need "@ + money_text(price as int) + ", have "@ + match balance {
        Some(b) => money_text(b as int),
        None => "0"@,
    }
}

/// The whole decision of `POST /subscriptions/subscribe`, checked in this
/// order: self-service is enabled; the cycle is MONTHLY (default) or
/// ANNUALLY; the plan exists and is public; it has a price for the cycle,
/// which is not negative; without downgrades allowed, the price is not
/// below the current subscription's monthly price; with billing enabled and
/// a positive price, the wallet (empty when absent) covers it. A month is
/// 30 days, a year 365; renewal is on unless declined.
pub open spec fn subscribe_outcome(
    s: SubscribeSettings,
    b: SelfSubscribeRequest,
    plan: Option<PlanOffer>,
    current_price: Option<i64>,
    balance: Option<i64>,
) -> Result<(Seq<char>, i64, u32, bool, Option<i64>), (ErrKind, Seq<char>)> {
    let cycle = cycle_of(b);
    if !setting_is(opt_view(s.self_service), "1"@, "1"@) {
        Err((ErrKind::Forbidden, "self-service subscription is disabled"@))
    } else if cycle != "MONTHLY"@ && cycle != "ANNUALLY"@ {
        Err((ErrKind::BadRequest, "billing_cycle must be MONTHLY or ANNUALLY"@))
    } else if plan is None {
        Err((ErrKind::NotFound, "plan "@ + b.plan_id@))
    } else if !plan.unwrap().is_public {
        Err((ErrKind::Forbidden, "this plan is not available for self-subscription"@))
    } else if cycle_price(cycle, plan.unwrap()) is None {
        Err((ErrKind::BadRequest, "this plan does not support annual billing"@))
    } else {
        let price = cycle_price(cycle, plan.unwrap()).unwrap();
        let days: u32 = if cycle == "ANNUALLY"@ { 365 } else { 30 };
        let renew = match b.auto_renew {
            Some(r) => r,
            None => true,
        };
        let bal = match balance {
            Some(x) => x,
            None => 0,
        };
        if price < 0 {
            Err((ErrKind::BadRequest, "negative price"@))
        } else if !setting_is(opt_view(s.allow_downgrade), "1"@, "1"@) && (current_price matches Some(
            cp,
        ) && price < cp) {
            Err((ErrKind::Forbidden, "downgrading subscription is not allowed"@))
        } else if setting_is(opt_view(s.billing_enabled), "0"@, "1"@) && price > 0 {
            if bal < price {
                Err((ErrKind::BadRequest, insufficient_message(price, balance)))
            } else {
                Ok((cycle, price, days, renew, Some((bal - price) as i64)))
            }
        } else {
            Ok((cycle, price, days, renew, None))
        }
    }
}

fn setting_equals(o: &Option<String>, default: &str, v: &str) -> (b: bool)
    ensures
        b == setting_is(opt_view(*o), default@, v@),
{
    match o {
        Some(x) => str_eq(x.as_str(), v),
        None => str_eq(default, v),
    }
}

pub fn subscribe_terms(
    s: &SubscribeSettings,
    b: &SelfSubscribeRequest,
    plan: &Option<PlanOffer>,
    current_price: Option<i64>,
    balance: Option<i64>,
) -> (r: Result<SubscribeTerms, AppError>)
    requires
        balance matches Some(x) ==> x > i64::MIN,
    ensures
        match r {
            Ok(t) => subscribe_outcome(*s, *b, *plan, current_price, balance) == Ok::<
                (Seq<char>, i64, u32, bool, Option<i64>),
                (ErrKind, Seq<char>),
            >((t.billing_cycle@, t.price, t.days, t.auto_renew, t.balance_after)),
            Err(e) => subscribe_outcome(*s, *b, *plan, current_price, balance) == Err::<
                (Seq<char>, i64, u32, bool, Option<i64>),
                (ErrKind, Seq<char>),
            >(e.as_pair()),
        },
        s.allow_downgrade is None ==> !(r matches Err(e) && e.as_pair() == (
            ErrKind::Forbidden,
            "downgrading subscription is not allowed"@,
        )),
{
    proof {
        if s.allow_downgrade is None {
            downgrades_allowed_unless_disabled(*s, *b, *plan, current_price, balance);
        }
    }
    if !setting_equals(&s.self_service, "1", "1") {
        return Err(forbidden("self-service subscription is disabled"));
    }
    let cycle = match &b.billing_cycle {
        Some(c) => c.clone(),
        None => owned("MONTHLY"),
    };
    let annual = str_eq(cycle.as_str(), "ANNUALLY");
    if !str_eq(cycle.as_str(), "MONTHLY") && !annual {
        return Err(bad_request("billing_cycle must be MONTHLY or ANNUALLY"));
    }
    let p = match plan {
        None => return Err(AppError::NotFound(cat2("plan ", b.plan_id.as_str()))),
        Some(p) => p,
    };
    if !p.is_public {
        return Err(forbidden("this plan is not available for self-subscription"));
    }
    let (price, days): (i64, u32) = if annual {
        match p.price_annually {
            None => return Err(bad_request("this plan does not support annual billing")),
            Some(x) => (x, 365),
        }
    } else {
        (p.price_monthly, 30)
    };
    let renew = match b.auto_renew {
        Some(r) => r,
        None => true,
    };
    if price < 0 {
        return Err(bad_request("negative price"));
    }
    if !setting_equals(&s.allow_downgrade, "1", "1") {
        if let Some(cp) = current_price {
            if price < cp {
                return Err(forbidden("downgrading subscription is not allowed"));
            }
        }
    }
    if setting_equals(&s.billing_enabled, "0", "1") && price > 0 {
        let bal = match balance {
            Some(x) => x,
            None => 0,
        };
        if bal < price {
            let need = money_string(price);
            let have = match balance {
                Some(b) => money_string(b),
                None => owned("0"),
            };
            return Err(
                AppError::BadRequest(
                    cat4("insufficient balance: need ", need.as_str(), ", have ", have.as_str()),
                ),
            );
        }
        return Ok(
            SubscribeTerms {
                billing_cycle: cycle,
                price,
                days,
                auto_renew: renew,
                balance_after: Some(bal - price),
            },
        );
    }
    Ok(SubscribeTerms { billing_cycle: cycle, price, days, auto_renew: renew, balance_after: None })
}

/// A self-service subscription never overdraws the wallet: whenever the
/// wallet is charged, the price is positive and the balance after paying
/// is the old balance less the price, never below zero.
pub proof fn subscribe_never_overdraws(
    s: SubscribeSettings,
    b: SelfSubscribeRequest,
    plan: Option<PlanOffer>,
    current_price: Option<i64>,
    balance: Option<i64>,
)
    requires
        subscribe_outcome(s, b, plan, current_price, balance) is Ok,
    ensures
        ({
            let (_, price, _, _, after) = subscribe_outcome(s, b, plan, current_price, balance)->Ok_0;
            &&& price >= 0
            &&& after matches Some(a) ==> (a >= 0 && price > 0 && a == (match balance {
                Some(x) => x,
                None => 0,
            }) - price)
            &&& setting_is(opt_view(s.billing_enabled), "0"@, "1"@) && price > 0 ==> after is Some
        }),
{
}

/// With downgrades disallowed, a self-service subscription never costs less
/// than the current one.
pub proof fn subscribe_respects_downgrade_rule(
    s: SubscribeSettings,
    b: SelfSubscribeRequest,
    plan: Option<PlanOffer>,
    current_price: Option<i64>,
    balance: Option<i64>,
)
    requires
        subscribe_outcome(s, b, plan, current_price, balance) is Ok,
        !setting_is(opt_view(s.allow_downgrade), "1"@, "1"@),
        current_price is Some,
    ensures
        subscribe_outcome(s, b, plan, current_price, balance)->Ok_0.1 >= current_price.unwrap(),
{
}

proof fn lemma_forbidden_messages_differ()
    ensures
        "downgrading subscription is not allowed"@ != "self-service subscription is disabled"@,
        "downgrading subscription is not allowed"@ != "this plan is not available for self-subscription"@,
        "self-service subscription is disabled"@ != "this plan is not available for self-subscription"@,
{
    reveal_strlit("downgrading subscription is not allowed");
    reveal_strlit("self-service subscription is disabled");
    reveal_strlit("this plan is not available for self-subscription");
    assert("downgrading subscription is not allowed"@.len() == 39);
    assert("self-service subscription is disabled"@.len() == 37);
    assert("this plan is not available for self-subscription"@.len() == 48);
}

/// Downgrades are allowed unless the platform turns them off: with
/// `subscription_allow_downgrade` unset or `1`, no subscription is refused
/// as a downgrade, whatever the current price.
pub proof fn downgrades_allowed_unless_disabled(
    s: SubscribeSettings,
    b: SelfSubscribeRequest,
    plan: Option<PlanOffer>,
    current_price: Option<i64>,
    balance: Option<i64>,
)
    requires
        s.allow_downgrade is None || s.allow_downgrade.unwrap()@ == "1"@,
    ensures
        subscribe_outcome(s, b, plan, current_price, balance) != Err::<(Seq<char>, i64, u32, bool, Option<i64>), (ErrKind, Seq<char>)>(
            (ErrKind::Forbidden, "downgrading subscription is not allowed"@),
        ),
{
    lemma_forbidden_messages_differ();
}

/// With downgrades turned off (the setting present and not `1`), a
/// self-service subscription to a public plan that is cheaper than the
/// current one is refused as a downgrade.
pub proof fn cheaper_plan_refused_when_downgrades_off(
    s: SubscribeSettings,
    b: SelfSubscribeRequest,
    p: PlanOffer,
    current: i64,
    balance: Option<i64>,
)
    requires
        s.self_service is None || s.self_service.unwrap()@ == "1"@,
        s.allow_downgrade is Some && s.allow_downgrade.unwrap()@ != "1"@,
        b.billing_cycle is None,
        p.is_public,
        0 <= p.price_monthly < current,
    ensures
        subscribe_outcome(s, b, Some(p), Some(current), balance) == Err::<(Seq<char>, i64, u32, bool, Option<i64>), (ErrKind, Seq<char>)>(
            (ErrKind::Forbidden, "downgrading subscription is not allowed"@),
        ),
{
    reveal_strlit("MONTHLY");
    reveal_strlit("ANNUALLY");
    assert("MONTHLY"@ != "ANNUALLY"@) by {
        assert("MONTHLY"@.len() != "ANNUALLY"@.len());
    }
}

/// Self-service is on unless the platform turns it off, and the wallet is
/// only charged when billing is turned on: with both settings unset, no
/// subscription is refused as disabled and none charges the wallet.
pub proof fn defaults_open_and_free(
    s: SubscribeSettings,
    b: SelfSubscribeRequest,
    plan: Option<PlanOffer>,
    current_price: Option<i64>,
    balance: Option<i64>,
)
    requires
        s.self_service is None,
        s.billing_enabled is None,
    ensures
        subscribe_outcome(s, b, plan, current_price, balance) != Err::<(Seq<char>, i64, u32, bool, Option<i64>), (ErrKind, Seq<char>)>(
            (ErrKind::Forbidden, "self-service subscription is disabled"@),
        ),
        subscribe_outcome(s, b, plan, current_price, balance) matches Ok(t) ==> t.4 is None,
{
    lemma_forbidden_messages_differ();
    reveal_strlit("0");
    reveal_strlit("1");
    assert("0"@ != "1"@) by {
        assert("0"@[0] != "1"@[0]);
    }
}

/// The reason recorded when a user cancels without giving one.
pub fn cancel_reason(body: &CancelSubscriptionRequest) -> (r: String)
    ensures
        r@ == (match body.reason {
            Some(x) => x@,
            None => "user requested cancellation"@,
        }),
{
    match &body.reason {
        Some(x) => x.clone(),
        None => owned("user requested cancellation"),
    }
}

/// After a user's own cancellation: refused when nothing was active; else
/// whether the default project's quotas are reset (setting
/// `subscription_expiry_action` is `RESET`; the default is `KEEP`).
pub fn after_self_cancel(cancelled_any: bool, expiry_action: &Option<String>) -> (r: Result<bool, AppError>)
    ensures
        !cancelled_any ==> (r matches Err(e) && e.as_pair() == (ErrKind::NotFound, "no active subscription to cancel"@)),
        cancelled_any ==> r == Ok::<bool, AppError>(setting_is(opt_view(*expiry_action), "KEEP"@, "RESET"@)),
{
    if !cancelled_any {
        return Err(not_found("no active subscription to cancel"));
    }
    Ok(setting_equals(expiry_action, "KEEP", "RESET"))
}

// ── Admin assignment ────────────────────────────────────────────────────────

/// Whether any per-dimension quota override is given.
pub open spec fn overrides_given(b: AdminAssignRequest) -> bool {
    b.quota_cpu_mcores is Some || b.quota_mem_mb is Some || b.quota_storage_gb is Some
        || b.quota_bandwidth_gb is Some || b.quota_domain_count is Some || b.quota_db_instances is Some
        || b.quota_apps is Some || b.quota_request_million is Some
}

pub fn has_quota_overrides(body: &AdminAssignRequest) -> (b: bool)
    ensures
        b == overrides_given(*body),
{
    body.quota_cpu_mcores.is_some() || body.quota_mem_mb.is_some() || body.quota_storage_gb.is_some()
        || body.quota_bandwidth_gb.is_some() || body.quota_domain_count.is_some()
        || body.quota_db_instances.is_some() || body.quota_apps.is_some()
        || body.quota_request_million.is_some()
}

/// What an admin assignment does.
pub enum AssignMode {
    /// Assign the plan (and then apply overrides, if any).
    Plan(String),
    /// Only patch the default project's quotas.
    PatchQuota,
}

/// A plan id means assigning that plan; without one, overrides are
/// required and the user must hold an active subscription.
pub fn assign_mode(body: &AdminAssignRequest, active_subscriptions: i64) -> (r: Result<AssignMode, AppError>)
    ensures
        body.plan_id matches Some(p) ==> (r matches Ok(AssignMode::Plan(x)) && x@ == p@),
        body.plan_id is None && !overrides_given(*body) ==> (r matches Err(e) && e.as_pair() == (
            ErrKind::BadRequest,
            "provide plan_id to assign a plan, or quota fields to patch the current allocation"@,
        )),
        body.plan_id is None && overrides_given(*body) && active_subscriptions == 0 ==> (r matches Err(e)
            && e.as_pair() == (ErrKind::BadRequest, "user has no active subscription; assign a plan first"@)),
        body.plan_id is None && overrides_given(*body) && active_subscriptions != 0 ==> (r matches Ok(
            AssignMode::PatchQuota,
        )),
{
    if let Some(p) = &body.plan_id {
        return Ok(AssignMode::Plan(p.clone()));
    }
    if !has_quota_overrides(body) {
        return Err(bad_request("provide plan_id to assign a plan, or quota fields to patch the current allocation"));
    }
    if active_subscriptions == 0 {
        return Err(bad_request("user has no active subscription; assign a plan first"));
    }
    Ok(AssignMode::PatchQuota)
}

/// The list value recorded as paid for a comp assignment: the annual price
/// for an annual cycle (twelve months when the plan has none), else the
/// monthly price; the cycle defaults to CUSTOM.
pub fn assign_price_paid(cycle: &Option<String>, monthly: i64, annually: Option<i64>) -> (p: i64)
    requires
        i64::MIN <= monthly * 12 <= i64::MAX,
    ensures
        p == (if cycle.is_some() && cycle.unwrap()@ == "ANNUALLY"@ {
            match annually {
                Some(a) => a,
                None => (monthly * 12) as i64,
            }
        } else {
            monthly
        }),
{
    let annual = match cycle {
        Some(c) => str_eq(c.as_str(), "ANNUALLY"),
        None => false,
    };
    if annual {
        match annually {
            Some(a) => a,
            None => monthly * 12,
        }
    } else {
        monthly
    }
}

/// The quotas of a default project after an override patch, in the order
/// cpu, mem, storage, bandwidth, domains, db instances, apps, requests:
/// each given field replaces its quota, the others stay.
pub fn quotas_after_overrides(current: [u32; 8], body: &AdminAssignRequest) -> (r: [u32; 8])
    ensures
        r@ == seq![
            patched(current@[0], body.quota_cpu_mcores),
            patched(current@[1], body.quota_mem_mb),
            patched(current@[2], body.quota_storage_gb),
            patched(current@[3], body.quota_bandwidth_gb),
            patched(current@[4], body.quota_domain_count),
            patched(current@[5], body.quota_db_instances),
            patched(current@[6], body.quota_apps),
            patched(current@[7], body.quota_request_million),
        ],
{
    let r: [u32; 8] = [
        match body.quota_cpu_mcores { Some(v) => v, None => current[0] },
        match body.quota_mem_mb { Some(v) => v, None => current[1] },
        match body.quota_storage_gb { Some(v) => v, None => current[2] },
        match body.quota_bandwidth_gb { Some(v) => v, None => current[3] },
        match body.quota_domain_count { Some(v) => v, None => current[4] },
        match body.quota_db_instances { Some(v) => v, None => current[5] },
        match body.quota_apps { Some(v) => v, None => current[6] },
        match body.quota_request_million { Some(v) => v, None => current[7] },
    ];
    assert(r@ =~= seq![
        patched(current@[0], body.quota_cpu_mcores),
        patched(current@[1], body.quota_mem_mb),
        patched(current@[2], body.quota_storage_gb),
        patched(current@[3], body.quota_bandwidth_gb),
        patched(current@[4], body.quota_domain_count),
        patched(current@[5], body.quota_db_instances),
        patched(current@[6], body.quota_apps),
        patched(current@[7], body.quota_request_million),
    ]);
    r
}

/// Patching with no override given changes no quota.
pub proof fn no_override_changes_nothing(current: Seq<u32>, body: AdminAssignRequest)
    requires
        !overrides_given(body),
        current.len() == 8,
    ensures
        seq![
            patched(current[0], body.quota_cpu_mcores),
            patched(current[1], body.quota_mem_mb),
            patched(current[2], body.quota_storage_gb),
            patched(current[3], body.quota_bandwidth_gb),
            patched(current[4], body.quota_domain_count),
            patched(current[5], body.quota_db_instances),
            patched(current[6], body.quota_apps),
            patched(current[7], body.quota_request_million),
        ] == current,
{
    assert(seq![
        patched(current[0], body.quota_cpu_mcores),
        patched(current[1], body.quota_mem_mb),
        patched(current[2], body.quota_storage_gb),
        patched(current[3], body.quota_bandwidth_gb),
        patched(current[4], body.quota_domain_count),
        patched(current[5], body.quota_db_instances),
        patched(current[6], body.quota_apps),
        patched(current[7], body.quota_request_million),
    ] =~= current);
}

// ── Admin changes to a subscription ─────────────────────────────────────────

pub open spec fn status_ok(s: Seq<char>) -> bool {
    s == "PENDING"@ || s == "ACTIVE"@ || s == "OVERDUE"@ || s == "EXPIRED"@ || s == "CANCELLED"@
}

/// A new status must be one of PENDING, ACTIVE, OVERDUE, EXPIRED,
/// CANCELLED. Gives whether the plan quota is re-allocated (the status
/// becomes ACTIVE).
pub fn check_subscription_update(body: &AdminUpdateSubRequest) -> (r: Result<bool, AppError>)
    ensures
        match body.status {
            Some(s) => if status_ok(s@) {
                r == Ok::<bool, AppError>(s@ == "ACTIVE"@)
            } else {
                r matches Err(e) && e.as_pair() == (ErrKind::BadRequest, "invalid status '"@ + s@ + "'"@)
            },
            None => r == Ok::<bool, AppError>(false),
        },
{
    match &body.status {
        None => Ok(false),
        Some(s) => {
            let x = s.as_str();
            if str_eq(x, "PENDING") || str_eq(x, "ACTIVE") || str_eq(x, "OVERDUE") || str_eq(x, "EXPIRED")
                || str_eq(x, "CANCELLED") {
                Ok(str_eq(x, "ACTIVE"))
            } else {
                Err(AppError::BadRequest(cat3("invalid status '", x, "'")))
            }
        },
    }
}

/// An admin cancellation of a subscription that is not yet cancelled:
/// gives the reason (default `admin cancelled`) and whether the quotas are
/// reset (default no).
pub fn admin_cancel_plan(current_status: &str, body: &AdminCancelSubRequest) -> (r: Result<(String, bool), AppError>)
    ensures
        current_status@ == "CANCELLED"@ ==> (r matches Err(e) && e.as_pair() == (
            ErrKind::BadRequest,
            "subscription already cancelled"@,
        )),
        current_status@ != "CANCELLED"@ ==> (r matches Ok((reason, reset)) && reason@ == (match body.reason {
            Some(x) => x@,
            None => "admin cancelled"@,
        }) && reset == (match body.reset_quotas {
            Some(b) => b,
            None => false,
        })),
{
    if str_eq(current_status, "CANCELLED") {
        return Err(bad_request("subscription already cancelled"));
    }
    let reason = match &body.reason {
        Some(x) => x.clone(),
        None => owned("admin cancelled"),
    };
    Ok((reason, match body.reset_quotas { Some(b) => b, None => false }))
}

// ── Default project ─────────────────────────────────────────────────────────

/// Keeps ASCII letters and digits and turns every other character into `-`.
pub open spec fn dns_chars(s: Seq<char>) -> Seq<char> {
    Seq::new(s.len(), |i: int| if is_ascii_alnum(s[i]) { s[i] } else { '-' })
}

/// `s` without leading and trailing `-`.
pub open spec fn trim_dashes(s: Seq<char>) -> Seq<char>
    decreases s.len(),
{
    if s.len() > 0 && s[0] == '-' {
        trim_dashes(s.drop_first())
    } else if s.len() > 0 && s.last() == '-' {
        trim_dashes(s.drop_last())
    } else {
        s
    }
}

/// The slug base of a lowercased username: non-alphanumerics as `-`,
/// dashes trimmed, `user` when nothing is left.
pub open spec fn slug_base_of_lower(lower: Seq<char>) -> Seq<char> {
    let b = trim_dashes(dns_chars(lower));
    if b.len() == 0 {
        "user"@
    } else {
        b
    }
}

/// The slug base of a username: that of its Unicode lowercase form.
pub open spec fn slug_base(username: Seq<char>) -> Seq<char> {
    slug_base_of_lower(unicode_lowercase(username))
}

/// The first `n` characters (all of them when shorter).
pub open spec fn prefix(s: Seq<char>, n: nat) -> Seq<char> {
    if s.len() <= n {
        s
    } else {
        s.take(n as int)
    }
}

/// The default project name from a slug base: `<base, at most 54
/// characters>-default`, or when that is taken its first 54 characters,
/// `-` and the first 8 characters of the new project id.
pub open spec fn name_from_base(base: Seq<char>, taken: bool, project_id: Seq<char>) -> Seq<char> {
    let candidate = prefix(base, 54) + "-default"@;
    if !taken {
        candidate
    } else {
        prefix(candidate, 54) + "-"@ + project_id.take(8)
    }
}

/// The default project name of a user.
pub open spec fn default_project_name_spec(username: Seq<char>, taken: bool, project_id: Seq<char>) -> Seq<char> {
    name_from_base(slug_base(username), taken, project_id)
}

fn trim_dashes_exec(v: &Vec<char>) -> (r: Vec<char>)
    ensures
        r@ == trim_dashes(v@),
{
    let mut a: usize = 0;
    let mut b: usize = v.len();
    assert(v@.subrange(0, v.len() as int) =~= v@);
    while a < b && v[a] == '-'
        invariant
            a <= b <= v.len(),
            b == v.len(),
            trim_dashes(v@.subrange(a as int, b as int)) == trim_dashes(v@),
        decreases b - a,
    {
        assert(v@.subrange(a as int, b as int).drop_first() =~= v@.subrange(a + 1, b as int));
        assert(v@.subrange(a as int, b as int)[0] == v@[a as int]);
        a = a + 1;
    }
    while a < b && v[b - 1] == '-'
        invariant
            a <= b <= v.len(),
            trim_dashes(v@.subrange(a as int, b as int)) == trim_dashes(v@),
            a < b ==> v@[a as int] != '-',
        decreases b - a,
    {
        assert(v@.subrange(a as int, b as int).drop_last() =~= v@.subrange(a as int, b - 1));
        proof {
            let s = v@.subrange(a as int, b as int);
            assert(s[0] == v@[a as int]);
            assert(s.last() == v@[b - 1]);
        }
        b = b - 1;
    }
    proof {
        let s = v@.subrange(a as int, b as int);
        if a < b {
            assert(s[0] == v@[a as int]);
            assert(s.last() == v@[b - 1]);
        }
    }
    slice_chars(v, a, b)
}

fn take_prefix(v: &Vec<char>, n: usize) -> (r: Vec<char>)
    ensures
        r@ == prefix(v@, n as nat),
{
    if v.len() <= n {
        slice_chars(v, 0, v.len())
    } else {
        let r = slice_chars(v, 0, n);
        assert(r@ =~= v@.take(n as int));
        r
    }
}

/// The name of a user's new default project from the lowercased username
/// (see `name_from_base`); `project_id` is the new project's id.
pub fn project_name_from_lowercase(lower_username: &str, name_taken: bool, project_id: &str) -> (r: String)
    requires
        project_id@.len() >= 8,
    ensures
        r@ == name_from_base(slug_base_of_lower(lower_username@), name_taken, project_id@),
{
    let lower = chars_of(lower_username);
    let mut mapped: Vec<char> = Vec::new();
    let mut i: usize = 0;
    while i < lower.len()
        invariant
            i <= lower.len(),
            mapped@ =~= dns_chars(lower@).take(i as int),
        decreases lower.len() - i,
    {
        let c = lower[i];
        mapped.push(if is_ascii_alnum_char(c) { c } else { '-' });
        i = i + 1;
    }
    assert(mapped@ =~= dns_chars(lower@));
    let trimmed = trim_dashes_exec(&mapped);
    let base = if trimmed.len() == 0 {
        chars_of("user")
    } else {
        trimmed
    };
    let head = take_prefix(&base, 54);
    let candidate = cat2(string_of(&head).as_str(), "-default");
    if !name_taken {
        return candidate;
    }
    let cv = chars_of(candidate.as_str());
    let short = take_prefix(&cv, 54);
    let pid = chars_of(project_id);
    let id8 = slice_chars(&pid, 0, 8);
    assert(id8@ =~= project_id@.take(8));
    cat3(string_of(&short).as_str(), "-", string_of(&id8).as_str())
}

/// The name of a user's new default project (see
/// `default_project_name_spec`); `project_id` is the new project's id.
pub fn default_project_name(username: &str, name_taken: bool, project_id: &str) -> (r: String)
    requires
        project_id@.len() >= 8,
    ensures
        r@ == default_project_name_spec(username@, name_taken, project_id@),
{
    let lower = to_lowercase(username);
    project_name_from_lowercase(lower.as_str(), name_taken, project_id)
}

/// A default project's name never exceeds 63 characters (a DNS label).
pub proof fn default_project_name_fits(username: Seq<char>, taken: bool, project_id: Seq<char>)
    requires
        project_id.len() >= 8,
    ensures
        default_project_name_spec(username, taken, project_id).len() <= 63,
{
    let base = slug_base(username);
    assert(prefix(base, 54).len() <= 54);
    reveal_strlit("-default");
    reveal_strlit("-");
    let c = prefix(base, 54) + "-default"@;
    assert(prefix(c, 54).len() <= 54);
}

/// The display name of a user's default project.
pub fn default_project_display_name(username: &str) -> (r: String)
    ensures
        r@ == username@ + " \u{7684}\u{9ed8}\u{8ba4}\u{9879}\u{76ee}"@,
{
    cat2(username, " \u{7684}\u{9ed8}\u{8ba4}\u{9879}\u{76ee}")
}

// ── Plans (admin) ───────────────────────────────────────────────────────────

/// An admin's new plan; prices in cents. The managed-binding quotas default
/// to `0` (unlimited).
pub struct CreatePlanRequest {
    pub name: String,
    pub display_name: String,
    pub description: Option<String>,
    pub price_monthly: i64,
    pub price_annually: Option<i64>,
    pub quota_cpu_mcores: u32,
    pub quota_mem_mb: u32,
    pub quota_storage_gb: u32,
    pub quota_bandwidth_gb: u32,
    pub quota_domain_count: u32,
    pub quota_db_instance_count: u32,
    pub quota_project_count: u32,
    pub quota_app_count: u32,
    pub quota_request_million: u32,
    pub is_public: Option<bool>,
    pub sort_order: Option<i16>,
    pub quota_mq_binding_count: u32,
    pub quota_smtp_binding_count: u32,
    pub quota_redis_binding_count: u32,
    pub quota_s3_binding_count: u32,
}

/// The columns of a new plan that are not copied from the request as they
/// stand: the trimmed names, the public flag (default public) and the sort
/// order (default `0`).
pub struct NewPlan {
    pub name: String,
    pub display_name: String,
    pub is_public: i8,
    pub sort_order: i16,
}

/// `POST /admin/plans`: the name and display name must be non-empty (as
/// given, before trimming) and the monthly price must not be negative.
pub fn check_new_plan(body: &CreatePlanRequest) -> (r: Result<NewPlan, AppError>)
    ensures
        (body.name@.len() == 0 || body.display_name@.len() == 0) ==> (r matches Err(e) && e.as_pair() == (
            ErrKind::BadRequest,
            "name and display_name are required"@,
        )),
        body.name@.len() > 0 && body.display_name@.len() > 0 && body.price_monthly < 0 ==> (r matches Err(e)
            && e.as_pair() == (ErrKind::BadRequest, "price cannot be negative"@)),
        body.name@.len() > 0 && body.display_name@.len() > 0 && body.price_monthly >= 0 ==> (r matches Ok(p)
            && p.name@ == trim(body.name@) && p.display_name@ == trim(body.display_name@) && p.is_public == flag(
            match body.is_public {
                Some(b) => b,
                None => true,
            },
        ) && p.sort_order == (match body.sort_order {
            Some(s) => s,
            None => 0,
        })),
{
    if body.name.as_str().is_empty() || body.display_name.as_str().is_empty() {
        return Err(bad_request("name and display_name are required"));
    }
    if body.price_monthly < 0 {
        return Err(bad_request("price cannot be negative"));
    }
    let name = trim_str(body.name.as_str());
    let display_name = trim_str(body.display_name.as_str());
    Ok(NewPlan {
        name: string_of(&name),
        display_name: string_of(&display_name),
        is_public: flag_byte(
            match body.is_public {
                Some(b) => b,
                None => true,
            },
        ),
        sort_order: match body.sort_order {
            Some(s) => s,
            None => 0,
        },
    })
}

/// A patch to a plan: each given field replaces the stored one.
pub struct UpdatePlanRequest {
    pub display_name: Option<String>,
    pub description: Option<String>,
    pub price_monthly: Option<i64>,
    pub price_annually: Option<i64>,
    pub quota_cpu_mcores: Option<u32>,
    pub quota_mem_mb: Option<u32>,
    pub quota_storage_gb: Option<u32>,
    pub quota_bandwidth_gb: Option<u32>,
    pub quota_domain_count: Option<u32>,
    pub quota_db_instance_count: Option<u32>,
    pub quota_project_count: Option<u32>,
    pub quota_app_count: Option<u32>,
    pub quota_request_million: Option<u32>,
    pub is_active: Option<bool>,
    pub is_public: Option<bool>,
    pub sort_order: Option<i16>,
    pub quota_mq_binding_count: Option<u32>,
    pub quota_smtp_binding_count: Option<u32>,
    pub quota_redis_binding_count: Option<u32>,
    pub quota_s3_binding_count: Option<u32>,
}

/// The editable columns of a stored plan; prices in cents, `0`/`1` flags.
pub struct PlanRow {
    pub display_name: String,
    pub description: Option<String>,
    pub price_monthly: i64,
    pub price_annually: Option<i64>,
    pub quota_cpu_mcores: u32,
    pub quota_mem_mb: u32,
    pub quota_storage_gb: u32,
    pub quota_bandwidth_gb: u32,
    pub quota_domain_count: u32,
    pub quota_db_instance_count: u32,
    pub quota_project_count: u32,
    pub quota_app_count: u32,
    pub quota_request_million: u32,
    pub is_active: i8,
    pub is_public: i8,
    pub sort_order: i16,
    pub quota_mq_binding_count: u32,
    pub quota_smtp_binding_count: u32,
    pub quota_redis_binding_count: u32,
    pub quota_s3_binding_count: u32,
}

/// A stored optional column under a patch: a given value replaces it, an
/// absent one keeps it (so a patch cannot clear it).
pub open spec fn patched_opt<T>(stored: Option<T>, given: Option<T>) -> Option<T> {
    match given {
        Some(v) => Some(v),
        None => stored,
    }
}

pub open spec fn patched_flag(stored: i8, given: Option<bool>) -> i8 {
    match given {
        Some(b) => flag(b),
        None => stored,
    }
}

fn patch_u32(stored: u32, given: Option<u32>) -> (r: u32)
    ensures
        r == patched(stored, given),
{
    match given {
        Some(v) => v,
        None => stored,
    }
}

fn patch_flag(stored: i8, given: Option<bool>) -> (r: i8)
    ensures
        r == patched_flag(stored, given),
{
    match given {
        Some(b) => flag_byte(b),
        None => stored,
    }
}

/// `PATCH /admin/plans/:id`: the plan after the patch.
pub fn plan_update(existing: &PlanRow, body: &UpdatePlanRequest) -> (r: PlanRow)
    ensures
        r.display_name@ == patched(existing.display_name@, opt_view(body.display_name)),
        opt_view(r.description) == patched_opt(opt_view(existing.description), opt_view(body.description)),
        r.price_monthly == patched(existing.price_monthly, body.price_monthly),
        r.price_annually == patched_opt(existing.price_annually, body.price_annually),
        r.quota_cpu_mcores == patched(existing.quota_cpu_mcores, body.quota_cpu_mcores),
        r.quota_mem_mb == patched(existing.quota_mem_mb, body.quota_mem_mb),
        r.quota_storage_gb == patched(existing.quota_storage_gb, body.quota_storage_gb),
        r.quota_bandwidth_gb == patched(existing.quota_bandwidth_gb, body.quota_bandwidth_gb),
        r.quota_domain_count == patched(existing.quota_domain_count, body.quota_domain_count),
        r.quota_db_instance_count == patched(existing.quota_db_instance_count, body.quota_db_instance_count),
        r.quota_project_count == patched(existing.quota_project_count, body.quota_project_count),
        r.quota_app_count == patched(existing.quota_app_count, body.quota_app_count),
        r.quota_request_million == patched(existing.quota_request_million, body.quota_request_million),
        r.is_active == patched_flag(existing.is_active, body.is_active),
        r.is_public == patched_flag(existing.is_public, body.is_public),
        r.sort_order == patched(existing.sort_order, body.sort_order),
        r.quota_mq_binding_count == patched(existing.quota_mq_binding_count, body.quota_mq_binding_count),
        r.quota_smtp_binding_count == patched(existing.quota_smtp_binding_count, body.quota_smtp_binding_count),
        r.quota_redis_binding_count == patched(existing.quota_redis_binding_count, body.quota_redis_binding_count),
        r.quota_s3_binding_count == patched(existing.quota_s3_binding_count, body.quota_s3_binding_count),
{
    PlanRow {
        display_name: match &body.display_name {
            Some(d) => d.clone(),
            None => existing.display_name.clone(),
        },
        description: match &body.description {
            Some(d) => Some(d.clone()),
            None => copy_opt(&existing.description),
        },
        price_monthly: match body.price_monthly {
            Some(p) => p,
            None => existing.price_monthly,
        },
        price_annually: match body.price_annually {
            Some(p) => Some(p),
            None => existing.price_annually,
        },
        quota_cpu_mcores: patch_u32(existing.quota_cpu_mcores, body.quota_cpu_mcores),
        quota_mem_mb: patch_u32(existing.quota_mem_mb, body.quota_mem_mb),
        quota_storage_gb: patch_u32(existing.quota_storage_gb, body.quota_storage_gb),
        quota_bandwidth_gb: patch_u32(existing.quota_bandwidth_gb, body.quota_bandwidth_gb),
        quota_domain_count: patch_u32(existing.quota_domain_count, body.quota_domain_count),
        quota_db_instance_count: patch_u32(existing.quota_db_instance_count, body.quota_db_instance_count),
        quota_project_count: patch_u32(existing.quota_project_count, body.quota_project_count),
        quota_app_count: patch_u32(existing.quota_app_count, body.quota_app_count),
        quota_request_million: patch_u32(existing.quota_request_million, body.quota_request_million),
        is_active: patch_flag(existing.is_active, body.is_active),
        is_public: patch_flag(existing.is_public, body.is_public),
        sort_order: match body.sort_order {
            Some(s) => s,
            None => existing.sort_order,
        },
        quota_mq_binding_count: patch_u32(existing.quota_mq_binding_count, body.quota_mq_binding_count),
        quota_smtp_binding_count: patch_u32(existing.quota_smtp_binding_count, body.quota_smtp_binding_count),
        quota_redis_binding_count: patch_u32(existing.quota_redis_binding_count, body.quota_redis_binding_count),
        quota_s3_binding_count: patch_u32(existing.quota_s3_binding_count, body.quota_s3_binding_count),
    }
}

/// `DELETE /admin/plans/:id`: a plan with active or overdue subscribers is
/// kept (409).
pub fn check_plan_deletable(active_subscribers: i64) -> (r: Result<(), AppError>)
    ensures
        active_subscribers <= 0 ==> r is Ok,
        active_subscribers > 0 ==> (r matches Err(e) && e.as_pair() == (
            ErrKind::Conflict,
            "cannot delete plan with "@ + dec(active_subscribers as nat)
                + " active subscriber(s) \u{2014} deactivate or migrate them first"@,
        )),
{
    if active_subscribers > 0 {
        let n = decimal_string(active_subscribers as u64);
        return Err(AppError::Conflict(cat3(
            "cannot delete plan with ",
            n.as_str(),
            " active subscriber(s) \u{2014} deactivate or migrate them first",
        )));
    }
    Ok(())
}

// ── A user's subscriptions ──────────────────────────────────────────────────

/// One subscription of a user; a user's subscriptions are kept oldest first.
pub struct SubscriptionRow {
    pub id: String,
    pub plan_id: String,
    pub status: String,
    pub cancel_reason: Option<String>,
}

/// (id, plan, status, cancel reason) of a subscription.
pub type SubView = (Seq<char>, Seq<char>, Seq<char>, Option<Seq<char>>);

pub open spec fn sub_view(r: SubscriptionRow) -> SubView {
    (r.id@, r.plan_id@, r.status@, opt_view(r.cancel_reason))
}

pub open spec fn subs_view(v: Seq<SubscriptionRow>) -> Seq<SubView> {
    v.map_values(|r: SubscriptionRow| sub_view(r))
}

/// A subscription in force: ACTIVE or OVERDUE.
pub open spec fn is_live(status: Seq<char>) -> bool {
    status == "ACTIVE"@ || status == "OVERDUE"@
}

/// How many subscriptions are in force.
pub open spec fn live_count(v: Seq<SubView>) -> nat
    decreases v.len(),
{
    if v.len() == 0 {
        0
    } else {
        live_count(v.drop_last()) + if is_live(v.last().2) {
            1nat
        } else {
            0nat
        }
    }
}

/// The most recent subscription in force, or -1.
pub open spec fn latest_live(v: Seq<SubView>) -> int
    decreases v.len(),
{
    if v.len() == 0 {
        -1
    } else if is_live(v.last().2) {
        v.len() - 1
    } else {
        latest_live(v.drop_last())
    }
}

proof fn lemma_latest_live(v: Seq<SubView>)
    ensures
        -1 <= latest_live(v) < v.len(),
        latest_live(v) >= 0 ==> is_live(v[latest_live(v)].2),
        latest_live(v) < 0 ==> live_count(v) == 0,
        latest_live(v) >= 0 ==> live_count(v) >= 1,
    decreases v.len(),
{
    if v.len() > 0 {
        lemma_latest_live(v.drop_last());
        if !is_live(v.last().2) && latest_live(v.drop_last()) >= 0 {
            assert(v[latest_live(v)] == v.drop_last()[latest_live(v)]);
        }
    }
}

proof fn lemma_live_count_update(v: Seq<SubView>, i: int, x: SubView)
    requires
        0 <= i < v.len(),
    ensures
        live_count(v.update(i, x)) + (if is_live(v[i].2) { 1int } else { 0int }) == live_count(v) + (if is_live(
            x.2,
        ) {
            1int
        } else {
            0int
        }),
    decreases v.len(),
{
    let w = v.update(i, x);
    if i == v.len() - 1 {
        assert(w.drop_last() =~= v.drop_last());
    } else {
        assert(w.drop_last() =~= v.drop_last().update(i, x));
        lemma_live_count_update(v.drop_last(), i, x);
    }
}

/// The subscription cancelled is the most recent one whose status is
/// ACTIVE or OVERDUE: if row `i` has one of those statuses and no later row
/// has, row `i` is the one; if no row has, there is none.
pub proof fn latest_active_or_overdue_is_in_force(v: Seq<SubView>, i: int)
    ensures
        (0 <= i < v.len() && (v[i].2 == "ACTIVE"@ || v[i].2 == "OVERDUE"@) && forall|j: int|
            i < j < v.len() ==> (#[trigger] v[j]).2 != "ACTIVE"@ && v[j].2 != "OVERDUE"@) ==> latest_live(v) == i,
        (forall|j: int| 0 <= j < v.len() ==> (#[trigger] v[j]).2 != "ACTIVE"@ && v[j].2 != "OVERDUE"@) ==> latest_live(v)
            == -1,
    decreases v.len(),
{
    if v.len() > 0 {
        let d = v.drop_last();
        if 0 <= i < v.len() && (v[i].2 == "ACTIVE"@ || v[i].2 == "OVERDUE"@) && forall|j: int|
            i < j < v.len() ==> (#[trigger] v[j]).2 != "ACTIVE"@ && v[j].2 != "OVERDUE"@ {
            if i < v.len() - 1 {
                assert(v.last() == v[v.len() - 1]);
                assert forall|j: int| i < j < d.len() implies (#[trigger] d[j]).2 != "ACTIVE"@ && d[j].2 != "OVERDUE"@ by {
                    assert(d[j] == v[j]);
                }
                assert(d[i] == v[i]);
                latest_active_or_overdue_is_in_force(d, i);
            }
        }
        if forall|j: int| 0 <= j < v.len() ==> (#[trigger] v[j]).2 != "ACTIVE"@ && v[j].2 != "OVERDUE"@ {
            assert(v.last() == v[v.len() - 1]);
            assert forall|j: int| 0 <= j < d.len() implies (#[trigger] d[j]).2 != "ACTIVE"@ && d[j].2 != "OVERDUE"@ by {
                assert(d[j] == v[j]);
            }
            latest_active_or_overdue_is_in_force(d, i);
        }
    }
}

/// A subscription ended by a new one or by a cancellation.
pub open spec fn cancelled(s: SubView, reason: Seq<char>) -> SubView {
    (s.0, s.1, "CANCELLED"@, Some(reason))
}

/// Ends the user's most recent subscription in force, if any: it becomes
/// CANCELLED with the reason. Gives its position.
pub fn cancel_active(subs: &mut Vec<SubscriptionRow>, reason: &str) -> (r: Option<usize>)
    ensures
        match r {
            Some(i) => i < old(subs)@.len() && (old(subs)@[i as int].status@ == "ACTIVE"@ || old(subs)@[i as int].status@
                == "OVERDUE"@) && (forall|j: int|
                i < j < old(subs)@.len() ==> (#[trigger] old(subs)@[j]).status@ != "ACTIVE"@ && old(subs)@[j].status@
                    != "OVERDUE"@) && final(subs)@[i as int].status@ == "CANCELLED"@ && opt_view(
                final(subs)@[i as int].cancel_reason,
            ) == Some(reason@),
            None => forall|j: int|
                0 <= j < old(subs)@.len() ==> (#[trigger] old(subs)@[j]).status@ != "ACTIVE"@ && old(subs)@[j].status@
                    != "OVERDUE"@,
        },
        latest_live(subs_view(old(subs)@)) < 0 ==> r is None && subs_view(final(subs)@) == subs_view(old(subs)@),
        latest_live(subs_view(old(subs)@)) >= 0 ==> ({
            let i = latest_live(subs_view(old(subs)@));
            &&& r == Some(i as usize)
            &&& subs_view(final(subs)@) == subs_view(old(subs)@).update(i, cancelled(subs_view(old(subs)@)[i], reason@))
        }),
{
    let ghost v = subs_view(subs@);
    let mut k: usize = subs.len();
    assert(v.take(k as int) =~= v);
    assert forall|i: int| 0 <= i < v.len() implies #[trigger] v[i].2 == old(subs)@[i].status@ by {}
    while k > 0
        invariant
            k <= subs.len(),
            v == subs_view(subs@),
            v == subs_view(old(subs)@),
            latest_live(v) == latest_live(v.take(k as int)),
            forall|i: int| 0 <= i < v.len() ==> #[trigger] v[i].2 == old(subs)@[i].status@,
            forall|i: int|
                k <= i < old(subs)@.len() ==> (#[trigger] old(subs)@[i]).status@ != "ACTIVE"@ && old(subs)@[i].status@
                    != "OVERDUE"@,
        decreases k,
    {
        let j = k - 1;
        assert(v.take(k as int).drop_last() =~= v.take(j as int));
        assert(v.take(k as int).last() == v[j as int]);
        assert(v[j as int].2 == subs@[j as int].status@);
        if str_eq(subs[j].status.as_str(), "ACTIVE") || str_eq(subs[j].status.as_str(), "OVERDUE") {
            let row = SubscriptionRow {
                id: subs[j].id.clone(),
                plan_id: subs[j].plan_id.clone(),
                status: owned("CANCELLED"),
                cancel_reason: Some(owned(reason)),
            };
            subs.set(j, row);
            proof {
                assert(is_live(v.take(k as int).last().2));
                assert(latest_live(v) == j);
                assert(subs_view(subs@) =~= v.update(j as int, cancelled(v[j as int], reason@)));
                assert(old(subs)@[j as int].status@ == v[j as int].2);
                assert(subs@[j as int].status@ == "CANCELLED"@);
            }
            return Some(j);
        }
        proof {
            assert(old(subs)@[j as int].status@ == v[j as int].2);
        }
        k = j;
    }
    assert(v.take(0) =~= Seq::<SubView>::empty());
    None
}

/// Records a new subscription: the one in force (if any) is cancelled with
/// `replaced_reason`, then the new one is added as ACTIVE.
pub fn start_subscription(subs: &mut Vec<SubscriptionRow>, id: String, plan_id: String, replaced_reason: &str)
    ensures
        ({
            let v = subs_view(old(subs)@);
            let i = latest_live(v);
            let base = if i >= 0 { v.update(i, cancelled(v[i], replaced_reason@)) } else { v };
            subs_view(final(subs)@) == base.push((id@, plan_id@, "ACTIVE"@, None::<Seq<char>>))
        }),
{
    let _ = cancel_active(subs, replaced_reason);
    let ghost before = subs@;
    subs.push(SubscriptionRow { id, plan_id, status: owned("ACTIVE"), cancel_reason: None });
    assert(subs_view(subs@) =~= subs_view(before).push(sub_view(subs@.last())));
}

/// A user has exactly one subscription in force after subscribing (from at
/// most one before): the new one, the earlier one having been cancelled.
pub proof fn one_subscription_in_force(v: Seq<SubView>, id: Seq<char>, plan: Seq<char>, reason: Seq<char>)
    requires
        live_count(v) <= 1,
    ensures
        ({
            let i = latest_live(v);
            let base = if i >= 0 { v.update(i, cancelled(v[i], reason)) } else { v };
            let after = base.push((id, plan, "ACTIVE"@, None::<Seq<char>>));
            &&& live_count(after) == 1
            &&& is_live(after.last().2)
        }),
{
    lemma_latest_live(v);
    let i = latest_live(v);
    let base = if i >= 0 { v.update(i, cancelled(v[i], reason)) } else { v };
    reveal_strlit("CANCELLED");
    reveal_strlit("ACTIVE");
    reveal_strlit("OVERDUE");
    if i >= 0 {
        lemma_live_count_update(v, i, cancelled(v[i], reason));
        assert("CANCELLED"@.len() == 9 && "ACTIVE"@.len() == 6 && "OVERDUE"@.len() == 7);
        assert(!is_live("CANCELLED"@));
    }
    assert(live_count(base) == 0);
    let after = base.push((id, plan, "ACTIVE"@, None::<Seq<char>>));
    assert(after.drop_last() =~= base);
}

} // verus!
