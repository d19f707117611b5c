//! Wallets and invoices: every balance change is recorded in the wallet's
//! ledger, and an invoice is paid at most once.

use vstd::prelude::*;
use crate::error::{bad_request, AppError, ErrKind};
use crate::text::{cat2, cat3, cat4, dec, sdec, signed_decimal_string, has_non_space, opt_view, owned, push_decimal, str_eq, string_of, trim, trim_str};

verus! {

// ── Queries ─────────────────────────────────────────────────────────────────

pub struct TransactionQuery {
    pub tx_type: Option<String>,
    pub page: Option<u32>,
    pub per_page: Option<u32>,
}

pub struct InvoiceQuery {
    pub status: Option<String>,
    pub page: Option<u32>,
    pub per_page: Option<u32>,
}

pub struct AdminTransactionQuery {
    pub search: Option<String>,
    pub tx_type: Option<String>,
    pub page: Option<u32>,
    pub per_page: Option<u32>,
}

pub struct ApplyChargesRequest {
    pub billing_month: String,
}

/// An admin recharge; the amount in cents.
pub struct RechargeRequest {
    pub user_id: String,
    pub amount: i64,
    pub description: Option<String>,
}

/// An admin adjustment by a positive or negative amount of cents.
pub struct AdjustmentRequest {
    pub user_id: String,
    pub amount: i64,
    pub description: String,
}

/// An invoice period, as day numbers.
pub struct GenerateInvoiceRequest {
    pub user_id: String,
    pub period_start: i64,
    pub period_end: i64,
}

// ── The wallet ledger ───────────────────────────────────────────────────────

/// One ledger entry: its type, the signed amount in cents, the balance
/// right after it, its description and the record it refers to (a payment
/// or an invoice), if any.
pub struct WalletTx {
    pub tx_type: String,
    pub amount: i64,
    pub balance_after: i64,
    pub description: Option<String>,
    pub ref_id: Option<String>,
}

/// The type, description and reference of a ledger entry.
pub open spec fn entry_label(tx: WalletTx) -> (Seq<char>, Option<Seq<char>>, Option<Seq<char>>) {
    (tx.tx_type@, opt_view(tx.description), opt_view(tx.ref_id))
}

/// A user's wallet: its balance (cents) and its ledger, oldest first.
pub struct Wallet {
    pub opening_balance: i64,
    pub balance: i64,
    pub ledger: Vec<WalletTx>,
}

/// (amount, balance after) of each entry.
pub open spec fn entries(v: Seq<WalletTx>) -> Seq<(i64, i64)> {
    v.map_values(|t: WalletTx| (t.amount, t.balance_after))
}

/// The ledger tells the whole story: each entry's balance is the previous
/// one (the opening balance for the first) plus its amount, and the last
/// entry's balance is the current balance.
pub open spec fn ledger_ok(opening: int, e: Seq<(i64, i64)>, balance: int) -> bool
    decreases e.len(),
{
    if e.len() == 0 {
        balance == opening
    } else {
        e.last().1 == balance && ledger_ok(opening, e.drop_last(), balance - e.last().0)
    }
}

impl Wallet {
    pub open spec fn consistent(&self) -> bool {
        ledger_ok(self.opening_balance as int, entries(self.ledger@), self.balance as int)
    }

    /// Adds `amount` to the balance and records it in the ledger.
    fn post(&mut self, tx_type: &str, amount: i64, description: Option<String>, ref_id: Option<String>)
        requires
            old(self).consistent(),
            i64::MIN <= old(self).balance + amount <= i64::MAX,
        ensures
            final(self).consistent(),
            final(self).opening_balance == old(self).opening_balance,
            final(self).balance == old(self).balance + amount,
            entries(final(self).ledger@) == entries(old(self).ledger@).push(
                (amount, final(self).balance),
            ),
            entry_label(final(self).ledger@.last()) == (tx_type@, opt_view(description), opt_view(ref_id)),
            final(self).ledger@ == old(self).ledger@.push(final(self).ledger@.last()),
    {
        let ghost before = entries(self.ledger@);
        let ghost old_balance = self.balance;
        let nb = self.balance + amount;
        self.balance = nb;
        self.ledger.push(WalletTx { tx_type: owned(tx_type), amount, balance_after: nb, description, ref_id });
        proof {
            let e = entries(self.ledger@);
            assert(e =~= before.push((amount, nb)));
            assert(e.drop_last() =~= before);
        }
    }

    /// `POST /admin/billing/recharge`: credits a positive amount, recorded
    /// as a RECHARGE.
    pub fn recharge(&mut self, body: &RechargeRequest) -> (r: Result<(), AppError>)
        requires
            old(self).consistent(),
            old(self).balance + body.amount <= i64::MAX,
        ensures
            final(self).consistent(),
            final(self).opening_balance == old(self).opening_balance,
            body.amount <= 0 ==> (r matches Err(e) && e.as_pair() == (
                ErrKind::BadRequest,
                "recharge amount must be positive"@,
            ) && final(self).balance == old(self).balance && final(self).ledger@ == old(self).ledger@),
            body.amount > 0 ==> (r is Ok && final(self).balance == old(self).balance + body.amount
                && entries(final(self).ledger@) == entries(old(self).ledger@).push(
                (body.amount, final(self).balance),
            ) && entry_label(final(self).ledger@.last()) == ("RECHARGE"@, opt_view(body.description), None::<Seq<char>>)
                && final(self).ledger@ == old(self).ledger@.push(final(self).ledger@.last())),
    {
        if body.amount <= 0 {
            return Err(bad_request("recharge amount must be positive"));
        }
        let d = match &body.description {
            Some(x) => Some(x.clone()),
            None => None,
        };
        self.post("RECHARGE", body.amount, d, None);
        Ok(())
    }

    /// `POST /admin/billing/adjust`: moves the balance by any amount with a
    /// required (trimmed) description, recorded as an ADJUSTMENT.
    pub fn adjust(&mut self, body: &AdjustmentRequest) -> (r: Result<(), AppError>)
        requires
            old(self).consistent(),
            i64::MIN <= old(self).balance + body.amount <= i64::MAX,
        ensures
            final(self).consistent(),
            final(self).opening_balance == old(self).opening_balance,
            !has_non_space(body.description@) ==> (r matches Err(e) && e.as_pair() == (
                ErrKind::BadRequest,
                "description is required for adjustments"@,
            ) && final(self).balance == old(self).balance && final(self).ledger@ == old(self).ledger@),
            has_non_space(body.description@) ==> (r is Ok && final(self).balance == old(self).balance
                + body.amount && entries(final(self).ledger@) == entries(old(self).ledger@).push(
                (body.amount, final(self).balance),
            ) && entry_label(final(self).ledger@.last()) == ("ADJUSTMENT"@, Some(trim(body.description@)), None::<Seq<char>>)
                && final(self).ledger@ == old(self).ledger@.push(final(self).ledger@.last())),
    {
        let d = trim_str(body.description.as_str());
        if d.len() == 0 {
            return Err(bad_request("description is required for adjustments"));
        }
        self.post("ADJUSTMENT", body.amount, Some(string_of(&d)), None);
        Ok(())
    }

    /// A Stripe top-up credit of payment `payment_id`, recorded as a
    /// RECHARGE described `Stripe top-up` and referring to the payment.
    pub fn credit_topup(&mut self, amount: i64, payment_id: &str)
        requires
            old(self).consistent(),
            i64::MIN <= old(self).balance + amount <= i64::MAX,
        ensures
            final(self).consistent(),
            final(self).opening_balance == old(self).opening_balance,
            final(self).balance == old(self).balance + amount,
            entries(final(self).ledger@) == entries(old(self).ledger@).push((amount, final(self).balance)),
            entry_label(final(self).ledger@.last()) == ("RECHARGE"@, Some("Stripe top-up"@), Some(payment_id@)),
            final(self).ledger@ == old(self).ledger@.push(final(self).ledger@.last()),
    {
        self.post("RECHARGE", amount, Some(owned("Stripe top-up")), Some(owned(payment_id)));
    }

    /// A deduction (subscription or invoice), recorded as a DEDUCTION of
    /// the negated amount with the given description and reference.
    pub fn deduct(&mut self, amount: i64, description: &str, ref_id: Option<String>)
        requires
            old(self).consistent(),
            amount > i64::MIN,
            i64::MIN <= old(self).balance - amount <= i64::MAX,
        ensures
            final(self).consistent(),
            final(self).opening_balance == old(self).opening_balance,
            final(self).balance == old(self).balance - amount,
            entries(final(self).ledger@) == entries(old(self).ledger@).push(((-amount) as i64, final(self).balance)),
            entry_label(final(self).ledger@.last()) == ("DEDUCTION"@, Some(description@), opt_view(ref_id)),
            final(self).ledger@ == old(self).ledger@.push(final(self).ledger@.last()),
    {
        self.post("DEDUCTION", -amount, Some(owned(description)), ref_id);
    }
}

proof fn lemma_ledger_sum(opening: int, e: Seq<(i64, i64)>, balance: int)
    requires
        ledger_ok(opening, e, balance),
    ensures
        balance == opening + ledger_total(e),
    decreases e.len(),
{
    if e.len() > 0 {
        lemma_ledger_sum(opening, e.drop_last(), balance - e.last().0);
    }
}

/// The sum of the amounts of a ledger.
pub open spec fn ledger_total(e: Seq<(i64, i64)>) -> int
    decreases e.len(),
{
    if e.len() == 0 {
        0
    } else {
        ledger_total(e.drop_last()) + e.last().0
    }
}

/// Money is neither created nor lost: the balance of a consistent wallet is
/// its opening balance plus the sum of all ledger amounts.
pub proof fn balance_is_opening_plus_ledger(w: Wallet)
    requires
        w.consistent(),
    ensures
        w.balance == w.opening_balance + ledger_total(entries(w.ledger@)),
{
    lemma_ledger_sum(w.opening_balance as int, entries(w.ledger@), w.balance as int);
}

// ── Invoices ────────────────────────────────────────────────────────────────

/// An invoice period must end after it starts.
pub fn check_invoice_period(body: &GenerateInvoiceRequest) -> (r: Result<(), AppError>)
    ensures
        r is Ok <==> body.period_end > body.period_start,
        r matches Err(e) ==> e.as_pair() == (ErrKind::BadRequest, "period_end must be after period_start"@),
{
    if body.period_end <= body.period_start {
        return Err(bad_request("period_end must be after period_start"));
    }
    Ok(())
}

/// The one line of a generated invoice: the compute resources of the
/// period, by hours of usage snapshots, and its total (cents; `0` when the
/// period has no snapshot).
pub fn invoice_line(hours: i64, total_cost: Option<i64>) -> (r: (String, i64))
    ensures
        r.0@ == "\u{8ba1}\u{7b97}\u{8d44}\u{6e90} ("@ + sdec(hours as int) + " \u{5c0f}\u{65f6})"@,
        r.1 == (match total_cost {
            Some(c) => c,
            None => 0,
        }),
{
    let n = signed_decimal_string(hours);
    let total = match total_cost {
        Some(c) => c,
        None => 0,
    };
    (cat3("\u{8ba1}\u{7b97}\u{8d44}\u{6e90} (", n.as_str(), " \u{5c0f}\u{65f6})"), total)
}

/// An invoice: its id, status (ISSUED, PAID or VOID), total in cents, and
/// when it was paid (Unix seconds).
pub struct Invoice {
    pub id: String,
    pub status: String,
    pub total_amount: i64,
    pub paid_at: Option<i64>,
}

/// `POST /admin/invoices/:id/pay`: an invoice that is neither paid nor void
/// is paid from the wallet (which may go negative): a DEDUCTION of its total
/// described `账单扣款` (invoice payment) and referring to the invoice; the
/// invoice is marked PAID at `now`.
pub fn mark_paid(inv: &mut Invoice, wallet: &mut Wallet, now: i64) -> (r: Result<(), AppError>)
    requires
        old(wallet).consistent(),
        pay_result(old(inv).status@) is Some ==> old(inv).total_amount > i64::MIN && i64::MIN <= old(wallet).balance
            - old(inv).total_amount <= i64::MAX,
    ensures
        final(wallet).consistent(),
        old(inv).status@ == "PAID"@ ==> (r matches Err(e) && e.as_pair() == (ErrKind::BadRequest, "invoice already paid"@)),
        old(inv).status@ == "VOID"@ ==> (r matches Err(e) && e.as_pair() == (ErrKind::BadRequest, "cannot pay a voided invoice"@)),
        match pay_result(old(inv).status@) {
            None => r is Err && final(inv).status@ == old(inv).status@ && final(wallet).balance
                == old(wallet).balance && final(wallet).ledger@ == old(wallet).ledger@,
            Some(t) => r is Ok && final(inv).status@ == t && final(inv).paid_at == Some(now) && final(wallet).balance
                == old(wallet).balance - old(inv).total_amount && entries(final(wallet).ledger@) == entries(
                old(wallet).ledger@,
            ).push(((-old(inv).total_amount) as i64, final(wallet).balance)) && entry_label(
                final(wallet).ledger@.last(),
            ) == ("DEDUCTION"@, Some("\u{8d26}\u{5355}\u{6263}\u{6b3e}"@), Some(old(inv).id@))
                && final(wallet).ledger@ == old(wallet).ledger@.push(final(wallet).ledger@.last()),
        },
        pay_result(old(inv).status@) is None ==> final(inv).paid_at == old(inv).paid_at,
        final(inv).total_amount == old(inv).total_amount,
        final(inv).id@ == old(inv).id@,
{
    assert("PAID"@ != "VOID"@) by {
        reveal_strlit("PAID");
        reveal_strlit("VOID");
        assert("PAID"@[0] != "VOID"@[0]);
    }
    if str_eq(inv.status.as_str(), "PAID") {
        return Err(bad_request("invoice already paid"));
    }
    if str_eq(inv.status.as_str(), "VOID") {
        return Err(bad_request("cannot pay a voided invoice"));
    }
    wallet.deduct(inv.total_amount, "\u{8d26}\u{5355}\u{6263}\u{6b3e}", Some(inv.id.clone()));
    inv.status = owned("PAID");
    inv.paid_at = Some(now);
    Ok(())
}

/// `POST /admin/invoices/:id/void`: any invoice but a paid one is voided.
pub fn void_invoice(inv: &mut Invoice) -> (r: Result<(), AppError>)
    ensures
        old(inv).status@ == "PAID"@ ==> (r matches Err(e) && e.as_pair() == (ErrKind::BadRequest, "cannot void a paid invoice"@)),
        match void_result(old(inv).status@) {
            None => r is Err && final(inv).status@ == old(inv).status@,
            Some(t) => r is Ok && final(inv).status@ == t,
        },
        final(inv).total_amount == old(inv).total_amount,
{
    if str_eq(inv.status.as_str(), "PAID") {
        return Err(bad_request("cannot void a paid invoice"));
    }
    inv.status = owned("VOID");
    Ok(())
}

/// The status the pay route gives an invoice, or none when it refuses.
pub open spec fn pay_result(status: Seq<char>) -> Option<Seq<char>> {
    if status == "PAID"@ || status == "VOID"@ {
        None
    } else {
        Some("PAID"@)
    }
}

/// The status the void route gives an invoice, or none when it refuses.
pub open spec fn void_result(status: Seq<char>) -> Option<Seq<char>> {
    if status == "PAID"@ {
        None
    } else {
        Some("VOID"@)
    }
}

/// An invoice is paid at most once: after a payment neither paying nor
/// voiding it again succeeds, and a voided invoice can never be paid.
pub proof fn invoice_paid_at_most_once(status: Seq<char>)
    ensures
        pay_result(status) matches Some(t) ==> pay_result(t) is None && void_result(t) is None,
        void_result(status) matches Some(t) ==> pay_result(t) is None,
{
}

// ── Invoice numbers ─────────────────────────────────────────────────────────

/// A number below a million written with six digits, zero-padded (`{:06}`).
pub open spec fn six_digits(n: nat) -> Seq<char> {
    Seq::new((6 - dec(n).len()) as nat, |i: int| '0') + dec(n)
}

/// `10^k`.
pub open spec fn ten_pow(k: nat) -> nat
    decreases k,
{
    if k == 0 {
        1
    } else {
        10 * ten_pow((k - 1) as nat)
    }
}

proof fn lemma_dec_len(n: nat, k: nat)
    requires
        k >= 1,
        n < ten_pow(k),
    ensures
        1 <= dec(n).len() <= k,
    decreases k,
{
    if n >= 10 {
        assert(k >= 2) by {
            if k == 1 {
                assert(ten_pow(1) == 10 * ten_pow(0));
            }
        }
        assert(n / 10 < ten_pow((k - 1) as nat)) by {
            assert(ten_pow(k) == 10 * ten_pow((k - 1) as nat));
        }
        lemma_dec_len(n / 10, (k - 1) as nat);
    }
}

/// The number of an invoice: `INV-<year and month>-<six digits>`.
pub fn invoice_number(year_month: &str, suffix: u32) -> (s: String)
    requires
        suffix < 1000000,
    ensures
        s@ == "INV-"@ + year_month@ + "-"@ + six_digits(suffix as nat),
{
    proof {
        reveal_with_fuel(ten_pow, 7);
        assert(ten_pow(6) == 1000000);
        lemma_dec_len(suffix as nat, 6);
    }
    let mut digits: Vec<char> = Vec::new();
    push_decimal(&mut digits, suffix as u64);
    let mut padded: Vec<char> = Vec::new();
    let pad: usize = 6 - digits.len();
    let mut i: usize = 0;
    while i < pad
        invariant
            i <= pad,
            padded@ == Seq::new(i as nat, |j: int| '0'),
        decreases pad - i,
    {
        padded.push('0');
        assert(padded@ =~= Seq::new((i + 1) as nat, |j: int| '0'));
        i += 1;
    }
    let mut k: usize = 0;
    while k < digits.len()
        invariant
            k <= digits.len(),
            padded@ == Seq::new(pad as nat, |j: int| '0') + digits@.take(k as int),
        decreases digits.len() - k,
    {
        padded.push(digits[k]);
        assert(padded@ =~= Seq::new(pad as nat, |j: int| '0') + digits@.take(k as int + 1));
        k += 1;
    }
    assert(digits@.take(digits.len() as int) =~= digits@);
    let tail = string_of(&padded);
    cat4("INV-", year_month, "-", tail.as_str())
}

/// A fresh invoice number for the given year and month (`YYYYMM`, read
/// from the clock by the caller): its six digits are drawn at random from
/// 100000 to 999998.
pub fn generate_invoice_no(year_month: &str) -> (s: String)
    ensures
        exists|n: nat| 100000 <= n < 999999 && s@ == "INV-"@ + year_month@ + "-"@ + six_digits(n),
{
    let r = crate::databases::random_below(899999);
    let suffix: u32 = 100000 + r as u32;
    let s = invoice_number(year_month, suffix);
    assert(100000 <= suffix as nat && (suffix as nat) < 999999);
    s
}

} // verus!
