use quickstack::billing::{
    check_invoice_period, generate_invoice_no, invoice_line, invoice_number, mark_paid, void_invoice, AdjustmentRequest, GenerateInvoiceRequest, Invoice,
    RechargeRequest, Wallet,
};
use quickstack::error::AppError;
use quickstack::stripe::{
    check_topup_amount, currency_from_lowercase, handle_checkout_completed, parse_currency, require_stripe, Currency, PaymentRecord,
    TopupRequest,
};
use quickstack::subscriptions::{
    admin_cancel_plan, after_self_cancel, assign_mode, assign_price_paid, cancel_reason, check_new_plan, check_plan_deletable,
    check_subscription_update, plan_update, start_subscription, cancel_active, SubscriptionRow, CreatePlanRequest, PlanRow, UpdatePlanRequest,
    default_project_display_name, default_project_name, has_quota_overrides, project_name_from_lowercase, quotas_after_overrides,
    subscribe_terms, AdminAssignRequest, AdminCancelSubRequest, AdminUpdateSubRequest, AssignMode,
    CancelSubscriptionRequest, PlanOffer, SelfSubscribeRequest, SubscribeSettings,
};

fn wallet(balance: i64) -> Wallet {
    Wallet { opening_balance: balance, balance, ledger: vec![] }
}

fn ledger_sum(w: &Wallet) -> i64 {
    w.ledger.iter().map(|t| t.amount).sum()
}

#[test]
fn recharge_and_adjust_keep_the_ledger() {
    let mut w = wallet(1000);
    assert!(w.recharge(&RechargeRequest { user_id: "u".to_string(), amount: 500, description: None }).is_ok());
    assert_eq!(w.balance, 1500);
    assert_eq!(w.ledger.last().unwrap().tx_type, "RECHARGE");
    assert_eq!(w.ledger.last().unwrap().balance_after, 1500);
    match w.recharge(&RechargeRequest { user_id: "u".to_string(), amount: 0, description: None }) {
        Err(AppError::BadRequest(m)) => assert_eq!(m, "recharge amount must be positive"),
        _ => panic!(),
    }
    assert!(w.adjust(&AdjustmentRequest { user_id: "u".to_string(), amount: -2000, description: " refund ".to_string() }).is_ok());
    assert_eq!(w.balance, -500);
    assert_eq!(w.ledger.last().unwrap().tx_type, "ADJUSTMENT");
    assert_eq!(w.ledger.last().unwrap().description.as_deref(), Some("refund"));
    match w.adjust(&AdjustmentRequest { user_id: "u".to_string(), amount: 5, description: "  ".to_string() }) {
        Err(AppError::BadRequest(m)) => assert_eq!(m, "description is required for adjustments"),
        _ => panic!(),
    }
    w.deduct(100, "fee", Some("inv-9".to_string()));
    let d = w.ledger.last().unwrap();
    assert_eq!((d.tx_type.as_str(), d.amount, d.description.as_deref(), d.ref_id.as_deref()), ("DEDUCTION", -100, Some("fee"), Some("inv-9")));
    w.credit_topup(300, "pay-1");
    let c = w.ledger.last().unwrap();
    assert_eq!((c.tx_type.as_str(), c.amount, c.description.as_deref(), c.ref_id.as_deref()), ("RECHARGE", 300, Some("Stripe top-up"), Some("pay-1")));
    assert_eq!(w.balance, -300);
    // the balance is the opening balance plus every ledger amount
    assert_eq!(w.balance, w.opening_balance + ledger_sum(&w));
    assert_eq!(w.ledger.len(), 4);
}

#[test]
fn invoices_are_paid_at_most_once() {
    assert!(check_invoice_period(&GenerateInvoiceRequest { user_id: "u".to_string(), period_start: 1, period_end: 2 }).is_ok());
    match check_invoice_period(&GenerateInvoiceRequest { user_id: "u".to_string(), period_start: 2, period_end: 2 }) {
        Err(AppError::BadRequest(m)) => assert_eq!(m, "period_end must be after period_start"),
        _ => panic!(),
    }
    let mut w = wallet(100);
    let mut inv = Invoice { id: "inv-1".to_string(), status: "ISSUED".to_string(), total_amount: 250, paid_at: None };
    assert!(mark_paid(&mut inv, &mut w, 1700000000).is_ok());
    assert_eq!(inv.status, "PAID");
    assert_eq!(inv.paid_at, Some(1700000000));
    let e = w.ledger.last().unwrap();
    assert_eq!((e.tx_type.as_str(), e.description.as_deref(), e.ref_id.as_deref()), ("DEDUCTION", Some("\u{8d26}\u{5355}\u{6263}\u{6b3e}"), Some("inv-1")));
    assert_eq!(w.balance, -150);
    assert_eq!(w.ledger.last().unwrap().amount, -250);
    match mark_paid(&mut inv, &mut w, 1700000100) {
        Err(AppError::BadRequest(m)) => assert_eq!(m, "invoice already paid"),
        _ => panic!(),
    }
    assert_eq!(w.balance, -150);
    match void_invoice(&mut inv) {
        Err(AppError::BadRequest(m)) => assert_eq!(m, "cannot void a paid invoice"),
        _ => panic!(),
    }
    let mut other = Invoice { id: "inv-2".to_string(), status: "ISSUED".to_string(), total_amount: 10, paid_at: None };
    assert!(void_invoice(&mut other).is_ok());
    assert_eq!(other.status, "VOID");
    match mark_paid(&mut other, &mut w, 1700000200) {
        Err(AppError::BadRequest(m)) => assert_eq!(m, "cannot pay a voided invoice"),
        _ => panic!(),
    }
}

#[test]
fn stripe_top_ups() {
    assert!(require_stripe(true).is_ok());
    assert!(matches!(require_stripe(false), Err(AppError::BadRequest(m)) if m == "stripe payments are not configured"));
    assert_eq!(parse_currency("CNY").unwrap(), Currency::CNY);
    assert_eq!(parse_currency("usd").unwrap(), Currency::USD);
    assert!(matches!(parse_currency("eur"), Err(AppError::BadRequest(m)) if m == "Unsupported currency 'eur'. Only CNY and USD are accepted."));
    assert!(check_topup_amount(&TopupRequest { amount: 1 }).is_ok());
    assert!(matches!(check_topup_amount(&TopupRequest { amount: 0 }), Err(AppError::BadRequest(m)) if m == "amount must be positive"));
}

#[test]
fn a_checkout_is_credited_once() {
    let mut w = wallet(0);
    let mut p = Some(PaymentRecord { id: "pay-7".to_string(), status: "PENDING".to_string(), amount: 1200 });
    assert!(handle_checkout_completed(&mut p, &mut w));
    assert_eq!(w.balance, 1200);
    let e = w.ledger.last().unwrap();
    assert_eq!((e.tx_type.as_str(), e.amount, e.description.as_deref(), e.ref_id.as_deref()), ("RECHARGE", 1200, Some("Stripe top-up"), Some("pay-7")));
    // a repeated delivery at the top of the balance range changes nothing
    let mut full = Wallet { opening_balance: i64::MAX, balance: i64::MAX, ledger: vec![] };
    let mut done = Some(PaymentRecord { id: "pay-8".to_string(), status: "COMPLETED".to_string(), amount: 5 });
    assert!(!handle_checkout_completed(&mut done, &mut full));
    assert_eq!(full.balance, i64::MAX);
    assert_eq!(p.as_ref().unwrap().status, "COMPLETED");
    assert!(!handle_checkout_completed(&mut p, &mut w));
    assert_eq!(w.balance, 1200);
    assert_eq!(w.ledger.len(), 1);
    let mut none: Option<PaymentRecord> = None;
    assert!(!handle_checkout_completed(&mut none, &mut w));
}

fn settings(billing: Option<&str>, downgrade: Option<&str>) -> SubscribeSettings {
    SubscribeSettings {
        self_service: None,
        allow_downgrade: downgrade.map(|s| s.to_string()),
        billing_enabled: billing.map(|s| s.to_string()),
    }
}

fn request(cycle: Option<&str>) -> SelfSubscribeRequest {
    SelfSubscribeRequest { plan_id: "pro".to_string(), billing_cycle: cycle.map(|s| s.to_string()), auto_renew: None }
}

fn plan(monthly: i64, annually: Option<i64>, public: bool) -> Option<PlanOffer> {
    Some(PlanOffer { price_monthly: monthly, price_annually: annually, is_public: public })
}

#[test]
fn self_service_subscription_terms() {
    let t = subscribe_terms(&settings(None, None), &request(None), &plan(1000, None, true), None, None).unwrap();
    assert_eq!((t.billing_cycle.as_str(), t.price, t.days, t.auto_renew, t.balance_after), ("MONTHLY", 1000, 30, true, None));
    let t = subscribe_terms(&settings(Some("1"), None), &request(Some("ANNUALLY")), &plan(1000, Some(10000), true), None, Some(12000)).unwrap();
    assert_eq!((t.price, t.days, t.balance_after), (10000, 365, Some(2000)));
    match subscribe_terms(&settings(Some("1"), None), &request(None), &plan(1000, None, true), None, Some(999)) {
        Err(AppError::BadRequest(m)) => assert_eq!(m, "insufficient balance: need 10.00, have 9.99"),
        _ => panic!(),
    }
    match subscribe_terms(&settings(Some("1"), None), &request(None), &plan(1000, None, true), None, None) {
        Err(AppError::BadRequest(m)) => assert_eq!(m, "insufficient balance: need 10.00, have 0"),
        _ => panic!(),
    }
    match subscribe_terms(&settings(None, Some("0")), &request(None), &plan(500, None, true), Some(1000), None) {
        Err(AppError::Forbidden(m)) => assert_eq!(m, "downgrading subscription is not allowed"),
        _ => panic!(),
    }
    match subscribe_terms(&settings(None, None), &request(Some("WEEKLY")), &plan(1, None, true), None, None) {
        Err(AppError::BadRequest(m)) => assert_eq!(m, "billing_cycle must be MONTHLY or ANNUALLY"),
        _ => panic!(),
    }
    match subscribe_terms(&settings(None, None), &request(None), &None, None, None) {
        Err(AppError::NotFound(m)) => assert_eq!(m, "plan pro"),
        _ => panic!(),
    }
    match subscribe_terms(&settings(None, None), &request(None), &plan(1, None, false), None, None) {
        Err(AppError::Forbidden(m)) => assert_eq!(m, "this plan is not available for self-subscription"),
        _ => panic!(),
    }
    match subscribe_terms(&settings(None, None), &request(Some("ANNUALLY")), &plan(1, None, true), None, None) {
        Err(AppError::BadRequest(m)) => assert_eq!(m, "this plan does not support annual billing"),
        _ => panic!(),
    }
    let disabled = SubscribeSettings { self_service: Some("0".to_string()), allow_downgrade: None, billing_enabled: None };
    match subscribe_terms(&disabled, &request(None), &plan(1, None, true), None, None) {
        Err(AppError::Forbidden(m)) => assert_eq!(m, "self-service subscription is disabled"),
        _ => panic!(),
    }
}

fn assign(plan: Option<&str>, cpu: Option<u32>) -> AdminAssignRequest {
    AdminAssignRequest {
        plan_id: plan.map(|s| s.to_string()),
        billing_cycle: None,
        expires_at: None,
        auto_renew: None,
        skip_quota_apply: None,
        quota_cpu_mcores: cpu,
        quota_mem_mb: None,
        quota_storage_gb: None,
        quota_bandwidth_gb: None,
        quota_domain_count: None,
        quota_db_instances: None,
        quota_apps: Some(5).filter(|_| cpu.is_some()),
        quota_request_million: None,
    }
}

#[test]
fn admin_assignment_and_cancellation() {
    assert!(matches!(assign_mode(&assign(Some("pro"), None), 0), Ok(AssignMode::Plan(p)) if p == "pro"));
    assert!(matches!(assign_mode(&assign(None, Some(1)), 1), Ok(AssignMode::PatchQuota)));
    assert!(matches!(assign_mode(&assign(None, None), 1), Err(AppError::BadRequest(m))
        if m == "provide plan_id to assign a plan, or quota fields to patch the current allocation"));
    assert!(matches!(assign_mode(&assign(None, Some(1)), 0), Err(AppError::BadRequest(m))
        if m == "user has no active subscription; assign a plan first"));
    assert!(has_quota_overrides(&assign(None, Some(1))));
    assert!(!has_quota_overrides(&assign(Some("pro"), None)));
    let q = quotas_after_overrides([1, 2, 3, 4, 5, 6, 7, 8], &assign(None, Some(100)));
    assert_eq!(q, [100, 2, 3, 4, 5, 6, 5, 8]);
    assert_eq!(quotas_after_overrides([1, 2, 3, 4, 5, 6, 7, 8], &assign(None, None)), [1, 2, 3, 4, 5, 6, 7, 8]);
    assert_eq!(assign_price_paid(&Some("ANNUALLY".to_string()), 100, None), 1200);
    assert_eq!(assign_price_paid(&Some("ANNUALLY".to_string()), 100, Some(1000)), 1000);
    assert_eq!(assign_price_paid(&None, 100, Some(1000)), 100);
    assert_eq!(cancel_reason(&CancelSubscriptionRequest { reason: None }), "user requested cancellation");
    assert_eq!(after_self_cancel(true, &None).unwrap(), false);
    assert_eq!(after_self_cancel(true, &Some("RESET".to_string())).unwrap(), true);
    assert!(matches!(after_self_cancel(false, &None), Err(AppError::NotFound(m)) if m == "no active subscription to cancel"));
    let upd = |s: Option<&str>| AdminUpdateSubRequest { expires_at: None, auto_renew: None, status: s.map(|x| x.to_string()), cancel_reason: None };
    assert_eq!(check_subscription_update(&upd(Some("ACTIVE"))).unwrap(), true);
    assert_eq!(check_subscription_update(&upd(Some("EXPIRED"))).unwrap(), false);
    assert_eq!(check_subscription_update(&upd(None)).unwrap(), false);
    assert!(matches!(check_subscription_update(&upd(Some("GONE"))), Err(AppError::BadRequest(m)) if m == "invalid status 'GONE'"));
    let c = AdminCancelSubRequest { reason: None, reset_quotas: None };
    assert_eq!(admin_cancel_plan("ACTIVE", &c).unwrap(), ("admin cancelled".to_string(), false));
    assert!(matches!(admin_cancel_plan("CANCELLED", &c), Err(AppError::BadRequest(m)) if m == "subscription already cancelled"));
}

#[test]
fn default_project_names() {
    assert_eq!(default_project_name("Alice.Smith", false, "0123456789ab"), "alice-smith-default");
    assert_eq!(default_project_name("Alice.Smith", true, "0123456789ab"), "alice-smith-default-01234567");
    assert_eq!(default_project_name("__", false, "0123456789ab"), "user-default");
    let long = "x".repeat(80);
    let n = default_project_name(&long, true, "abcdefgh1234");
    assert!(n.len() <= 63);
    assert_eq!(n, format!("{}-abcdefgh", "x".repeat(54)));
    assert_eq!(default_project_display_name("bob"), "bob 的默认项目");
}

#[test]
fn invoice_numbers() {
    assert_eq!(invoice_number("202405", 123456), "INV-202405-123456");
    assert_eq!(invoice_number("202405", 42), "INV-202405-000042");
    assert_eq!(invoice_number("202405", 0), "INV-202405-000000");
    let n = generate_invoice_no("202412");
    assert!(n.starts_with("INV-202412-"));
    let digits = &n["INV-202412-".len()..];
    assert_eq!(digits.len(), 6);
    let v: u32 = digits.parse().unwrap();
    assert!((100000..999999).contains(&v));
}

#[test]
fn names_and_currencies_from_lowercased_text() {
    assert_eq!(currency_from_lowercase("cny", "CNY").unwrap(), Currency::CNY);
    assert!(matches!(currency_from_lowercase("eur", "EUR"),
        Err(AppError::BadRequest(m)) if m == "Unsupported currency 'EUR'. Only CNY and USD are accepted."));
    assert_eq!(project_name_from_lowercase("-bob_", false, "12345678"), "bob-default");
    assert_eq!(project_name_from_lowercase("ß", false, "12345678"), "user-default");
}

fn new_plan_request(name: &str, display_name: &str, price_monthly: i64) -> CreatePlanRequest {
    CreatePlanRequest {
        name: name.to_string(),
        display_name: display_name.to_string(),
        description: None,
        price_monthly,
        price_annually: None,
        quota_cpu_mcores: 1000,
        quota_mem_mb: 1024,
        quota_storage_gb: 10,
        quota_bandwidth_gb: 100,
        quota_domain_count: 1,
        quota_db_instance_count: 1,
        quota_project_count: 1,
        quota_app_count: 3,
        quota_request_million: 1,
        is_public: None,
        sort_order: None,
        quota_mq_binding_count: 0,
        quota_smtp_binding_count: 0,
        quota_redis_binding_count: 0,
        quota_s3_binding_count: 0,
    }
}

#[test]
fn new_plans_are_checked_and_trimmed() {
    let p = check_new_plan(&new_plan_request("  basic ", " Basic plan ", 990)).unwrap();
    assert_eq!(p.name, "basic");
    assert_eq!(p.display_name, "Basic plan");
    assert_eq!(p.is_public, 1);
    assert_eq!(p.sort_order, 0);
    let mut hidden = new_plan_request("pro", "Pro", 0);
    hidden.is_public = Some(false);
    hidden.sort_order = Some(7);
    let p = check_new_plan(&hidden).unwrap();
    assert_eq!((p.is_public, p.sort_order), (0, 7));
    match check_new_plan(&new_plan_request("", "Basic", 990)) {
        Err(AppError::BadRequest(m)) => assert_eq!(m, "name and display_name are required"),
        _ => panic!("an empty name is refused"),
    }
    match check_new_plan(&new_plan_request("basic", "Basic", -1)) {
        Err(AppError::BadRequest(m)) => assert_eq!(m, "price cannot be negative"),
        _ => panic!("a negative price is refused"),
    }
}

#[test]
fn plan_patches_replace_only_given_fields() {
    let row = PlanRow {
        display_name: "Basic".to_string(),
        description: Some("small".to_string()),
        price_monthly: 990,
        price_annually: Some(9900),
        quota_cpu_mcores: 1000,
        quota_mem_mb: 1024,
        quota_storage_gb: 10,
        quota_bandwidth_gb: 100,
        quota_domain_count: 1,
        quota_db_instance_count: 1,
        quota_project_count: 1,
        quota_app_count: 3,
        quota_request_million: 1,
        is_active: 1,
        is_public: 1,
        sort_order: 2,
        quota_mq_binding_count: 0,
        quota_smtp_binding_count: 0,
        quota_redis_binding_count: 0,
        quota_s3_binding_count: 0,
    };
    let patch = UpdatePlanRequest {
        display_name: None,
        description: None,
        price_monthly: Some(1290),
        price_annually: None,
        quota_cpu_mcores: Some(2000),
        quota_mem_mb: None,
        quota_storage_gb: None,
        quota_bandwidth_gb: None,
        quota_domain_count: None,
        quota_db_instance_count: None,
        quota_project_count: None,
        quota_app_count: None,
        quota_request_million: None,
        is_active: Some(false),
        is_public: None,
        sort_order: None,
        quota_mq_binding_count: Some(4),
        quota_smtp_binding_count: None,
        quota_redis_binding_count: None,
        quota_s3_binding_count: None,
    };
    let r = plan_update(&row, &patch);
    assert_eq!(r.display_name, "Basic");
    assert_eq!(r.description.as_deref(), Some("small"));
    assert_eq!((r.price_monthly, r.price_annually), (1290, Some(9900)));
    assert_eq!((r.quota_cpu_mcores, r.quota_mem_mb), (2000, 1024));
    assert_eq!((r.is_active, r.is_public, r.sort_order), (0, 1, 2));
    assert_eq!((r.quota_mq_binding_count, r.quota_smtp_binding_count), (4, 0));
}

#[test]
fn plans_with_subscribers_are_kept() {
    assert!(check_plan_deletable(0).is_ok());
    match check_plan_deletable(3) {
        Err(AppError::Conflict(m)) => assert_eq!(
            m,
            "cannot delete plan with 3 active subscriber(s) \u{2014} deactivate or migrate them first"
        ),
        _ => panic!("a plan with subscribers is kept"),
    }
}

#[test]
fn invoice_lines_count_hours() {
    let (d, total) = invoice_line(720, Some(12345));
    assert_eq!(d, "\u{8ba1}\u{7b97}\u{8d44}\u{6e90} (720 \u{5c0f}\u{65f6})");
    assert_eq!(total, 12345);
    assert_eq!(invoice_line(0, None), ("\u{8ba1}\u{7b97}\u{8d44}\u{6e90} (0 \u{5c0f}\u{65f6})".to_string(), 0));
}

fn sub(id: &str, status: &str) -> SubscriptionRow {
    SubscriptionRow { id: id.to_string(), plan_id: "p".to_string(), status: status.to_string(), cancel_reason: None }
}

#[test]
fn one_subscription_is_in_force_after_subscribing() {
    let mut subs = vec![sub("s1", "EXPIRED"), sub("s2", "ACTIVE")];
    start_subscription(&mut subs, "s3".to_string(), "pro".to_string(), "replaced by new subscription");
    let live: Vec<&str> = subs.iter().filter(|s| s.status == "ACTIVE" || s.status == "OVERDUE").map(|s| s.id.as_str()).collect();
    assert_eq!(live, vec!["s3"]);
    assert_eq!(subs[1].status, "CANCELLED");
    assert_eq!(subs[1].cancel_reason.as_deref(), Some("replaced by new subscription"));
    assert_eq!(cancel_active(&mut subs, "user cancelled"), Some(2));
    assert_eq!(cancel_active(&mut subs, "again"), None);
    assert_eq!(subs[0].status, "EXPIRED");
}
