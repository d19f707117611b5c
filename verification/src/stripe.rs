//! Wallet top-ups paid through Stripe Checkout.
//!
//! Flow: the user asks for a top-up and is sent to a Checkout page; Stripe
//! then reports the completed session and the wallet is credited. Amounts
//! are in the currency's smallest unit (fen for CNY, cents for USD).

use vstd::prelude::*;
use crate::billing::{entries, entry_label, Wallet};
use crate::error::{bad_request, AppError, ErrKind};
use crate::text::{cat3, owned, str_eq, to_lowercase, unicode_lowercase};

verus! {

pub struct TopupRequest {
    /// Amount in smallest currency unit.
    pub amount: i64,
}

/// The currencies top-ups are accepted in.
#[derive(PartialEq, Eq, Structural, Debug, Clone, Copy)]
pub enum Currency {
    CNY,
    USD,
}

/// Top-ups need Stripe to be configured.
pub fn require_stripe(enabled: bool) -> (r: Result<(), AppError>)
    ensures
        r is Ok <==> enabled,
        r matches Err(e) ==> e.as_pair() == (ErrKind::BadRequest, "stripe payments are not configured"@),
{
    if !enabled {
        return Err(bad_request("stripe payments are not configured"));
    }
    Ok(())
}

/// The currency a lowercased setting names: `cny` or `usd`; any other is
/// refused, quoting the setting as configured.
pub fn currency_from_lowercase(lower: &str, configured: &str) -> (r: Result<Currency, AppError>)
    ensures
        lower@ == "cny"@ ==> r == Ok::<Currency, AppError>(Currency::CNY),
        lower@ == "usd"@ ==> r == Ok::<Currency, AppError>(Currency::USD),
        lower@ != "cny"@ && lower@ != "usd"@ ==> (r matches Err(e) && e.as_pair() == (
            ErrKind::BadRequest,
            "Unsupported currency '"@ + configured@ + "'. Only CNY and USD are accepted."@,
        )),
{
    proof {
        reveal_strlit("cny");
        reveal_strlit("usd");
        assert("usd"@[0] != "cny"@[0]);
    }
    if str_eq(lower, "cny") {
        Ok(Currency::CNY)
    } else if str_eq(lower, "usd") {
        Ok(Currency::USD)
    } else {
        Err(AppError::BadRequest(cat3("Unsupported currency '", configured, "'. Only CNY and USD are accepted.")))
    }
}

/// The configured currency, case-insensitively `cny` or `usd`.
pub fn parse_currency(s: &str) -> (r: Result<Currency, AppError>)
    ensures
        unicode_lowercase(s@) == "cny"@ ==> r == Ok::<Currency, AppError>(Currency::CNY),
        unicode_lowercase(s@) == "usd"@ ==> r == Ok::<Currency, AppError>(Currency::USD),
        unicode_lowercase(s@) != "cny"@ && unicode_lowercase(s@) != "usd"@ ==> (r matches Err(e)
            && e.as_pair() == (
            ErrKind::BadRequest,
            "Unsupported currency '"@ + s@ + "'. Only CNY and USD are accepted."@,
        )),
{
    let l = to_lowercase(s);
    currency_from_lowercase(l.as_str(), s)
}

/// A top-up must be for a positive amount.
pub fn check_topup_amount(body: &TopupRequest) -> (r: Result<(), AppError>)
    ensures
        r is Ok <==> body.amount > 0,
        r matches Err(e) ==> e.as_pair() == (ErrKind::BadRequest, "amount must be positive"@),
{
    if body.amount <= 0 {
        return Err(bad_request("amount must be positive"));
    }
    Ok(())
}

/// A recorded Checkout payment.
pub struct PaymentRecord {
    pub id: String,
    pub status: String,
    pub amount: i64,
}

/// Handles a completed Checkout session: a known PENDING payment credits
/// its amount to the wallet and becomes COMPLETED; an unknown or already
/// processed session changes nothing. Gives whether the wallet was credited.
pub fn handle_checkout_completed(payment: &mut Option<PaymentRecord>, wallet: &mut Wallet) -> (credited: bool)
    requires
        old(wallet).consistent(),
        match *old(payment) {
            Some(p) => p.status@ == "PENDING"@ ==> i64::MIN <= old(wallet).balance + p.amount <= i64::MAX,
            None => true,
        },
    ensures
        final(wallet).consistent(),
        credited <==> (*old(payment) matches Some(p) && p.status@ == "PENDING"@),
        credited ==> ({
            let p = (*old(payment)).unwrap();
            &&& *final(payment) matches Some(q) && q.status@ == "COMPLETED"@ && q.amount == p.amount && q.id@ == p.id@
            &&& final(wallet).balance == old(wallet).balance + p.amount
            &&& entries(final(wallet).ledger@) == entries(old(wallet).ledger@).push((p.amount, final(wallet).balance))
            &&& entry_label(final(wallet).ledger@.last()) == ("RECHARGE"@, Some("Stripe top-up"@), Some(p.id@))
            &&& final(wallet).ledger@ == old(wallet).ledger@.push(final(wallet).ledger@.last())
        }),
        !credited ==> final(wallet).balance == old(wallet).balance && final(wallet).ledger@ == old(wallet).ledger@
            && opt_status(*final(payment)) == opt_status(*old(payment)),
{
    match payment {
        None => false,
        Some(p) => {
            if !str_eq(p.status.as_str(), "PENDING") {
                return false;
            }
            wallet.credit_topup(p.amount, p.id.as_str());
            p.status = owned("COMPLETED");
            true
        },
    }
}

/// The status and amount of an optional payment.
pub open spec fn opt_status(p: Option<PaymentRecord>) -> Option<(Seq<char>, i64)> {
    match p {
        Some(r) => Some((r.status@, r.amount)),
        None => None,
    }
}

/// Stripe may deliver a completion more than once; the wallet is credited
/// only the first time: after a credit the payment is COMPLETED, which no
/// later delivery credits again.
pub proof fn topup_credited_once(status_after_first: Seq<char>)
    requires
        status_after_first == "COMPLETED"@,
    ensures
        status_after_first != "PENDING"@,
{
    assert("COMPLETED"@[0] != "PENDING"@[0]) by {
        reveal_strlit("COMPLETED");
        reveal_strlit("PENDING");
    }
}

} // verus!
