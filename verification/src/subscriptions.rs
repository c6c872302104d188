//! Granting a subscription period to a user, with or without an invoice.
use vstd::prelude::*;
use crate::error::{api_error, ApiError, ApiErrorCode, StatusCode};
use crate::ids::Id;

verus! {

/// How long a granted period runs.
#[derive(Clone, Copy, Debug, PartialEq, Eq, Structural)]
pub enum SubscriptionPeriodKind {
    Yearly,
    Monthly,
}

/// The billing interval of a product variant.
#[derive(Clone, Copy, Debug, PartialEq, Eq, Structural)]
pub enum SubscriptionProductKind {
    Monthly,
    Yearly,
}

/// A priced variant of a subscription product.
#[derive(Clone, Debug)]
pub struct ProductVariant {
    pub id: String,
    pub kind: SubscriptionProductKind,
    pub active: bool,
}

/// Where an invoice stands at the payment provider.
#[derive(Clone, Copy, Debug, PartialEq, Eq, Structural)]
pub enum InvoiceStatus {
    Draft,
    Open,
    Paid,
    Uncollectible,
    Void,
}

/// How paying an open invoice went.
#[derive(Clone, Copy, Debug, PartialEq, Eq, Structural)]
pub enum PayOutcome {
    /// The invoice was paid; its new status.
    Paid(Option<InvoiceStatus>),
    /// The card was declined; the invoice stays as it was.
    CardDeclined,
    /// Any other failure.
    Failed,
}

/// The answer to granting a period.
#[derive(Clone, Debug)]
pub struct CreateSubscriptionPeriodResponse {
    pub success: bool,
    pub invoice_id: Option<String>,
    pub payment_declined: bool,
}

/// A subscription period granted by the system without an invoice; times
/// are milliseconds since the epoch.
#[derive(Clone, Debug)]
pub struct SubscriptionPeriod {
    pub id: Id,
    /// The product variant the period is of.
    pub variant_id: String,
    pub start: i64,
    pub end: i64,
    pub is_trial: bool,
    pub auto_renew: bool,
    pub gifted_by: Option<Id>,
    /// The reason the system gave for granting it.
    pub reason: Option<String>,
    /// The subscription it belongs to: the product and the user.
    pub product_id: Id,
    pub user_id: Id,
}

/// The mutations on users.
#[derive(Clone, Copy, Debug, Default)]
pub struct UsersMutation;

/// The product interval a period kind asks for.
pub open spec fn product_kind(k: SubscriptionPeriodKind) -> SubscriptionProductKind {
    match k {
        SubscriptionPeriodKind::Yearly => SubscriptionProductKind::Yearly,
        SubscriptionPeriodKind::Monthly => SubscriptionProductKind::Monthly,
    }
}

/// Whether a variant can be sold for a period kind.
pub open spec fn sells(v: ProductVariant, k: SubscriptionPeriodKind) -> bool {
    v.kind == product_kind(k) && v.active
}

pub open spec fn variant_not_found() -> ApiError {
    api_error(StatusCode::NotFound, ApiErrorCode::LoadError, "product variant not found")
}

pub open spec fn no_customer() -> ApiError {
    api_error(
        StatusCode::BadRequest,
        ApiErrorCode::BadRequest,
        "user does not have a stripe customer id, ask them to setup a payment method first.",
    )
}

pub open spec fn no_payment_method() -> ApiError {
    api_error(StatusCode::BadRequest, ApiErrorCode::BadRequest, "customer does not have a payment method set")
}

pub open spec fn pay_failed() -> ApiError {
    api_error(StatusCode::InternalServerError, ApiErrorCode::StripeError, "failed to pay invoice")
}

pub open spec fn status_missing() -> ApiError {
    api_error(StatusCode::InternalServerError, ApiErrorCode::StripeError, "invoice status is missing")
}

impl UsersMutation {
    /// The variant a period is granted from: the first active one of the
    /// asked interval.
    pub fn period_variant(variants: &Vec<ProductVariant>, kind: SubscriptionPeriodKind) -> (r: Result<usize, ApiError>)
        ensures
            match r {
                Ok(i) => i < variants@.len() && sells(variants@[i as int], kind) && forall|j: int|
                    0 <= j < i ==> !sells(#[trigger] variants@[j], kind),
                Err(e) => e == variant_not_found() && forall|j: int| 0 <= j < variants@.len() ==> !sells(#[trigger] variants@[j], kind),
            },
    {
        let want = match kind {
            SubscriptionPeriodKind::Yearly => SubscriptionProductKind::Yearly,
            SubscriptionPeriodKind::Monthly => SubscriptionProductKind::Monthly,
        };
        let mut i: usize = 0;
        while i < variants.len()
            invariant
                want == product_kind(kind),
                i <= variants@.len(),
                forall|j: int| 0 <= j < i ==> !sells(#[trigger] variants@[j], kind),
            decreases variants@.len() - i,
        {
            if variants[i].kind == want && variants[i].active {
                return Ok(i);
            }
            i = i + 1;
        }
        Err(ApiError::not_found(ApiErrorCode::LoadError, "product variant not found"))
    }

    /// The customer an invoice is made out to, and the payment method it is
    /// charged to: the customer's default invoice payment method, else its
    /// default source.
    pub fn invoice_payer(
        customer_id: &Option<String>,
        default_payment_method: &Option<String>,
        default_source: &Option<String>,
    ) -> (r: Result<(String, String), ApiError>)
        ensures
            customer_id is None ==> r == Err::<(String, String), ApiError>(no_customer()),
            customer_id matches Some(c) ==> match (default_payment_method, default_source) {
                (Some(m), _) => r matches Ok((rc, rm)) && rc@ == c@ && rm@ == m@,
                (None, Some(s)) => r matches Ok((rc, rm)) && rc@ == c@ && rm@ == s@,
                (None, None) => r == Err::<(String, String), ApiError>(no_payment_method()),
            },
    {
        let customer = match customer_id {
            Some(c) => c.clone(),
            None => {
                return Err(ApiError::bad_request(
                    ApiErrorCode::BadRequest,
                    "user does not have a stripe customer id, ask them to setup a payment method first.",
                ));
            },
        };
        let method = match default_payment_method {
            Some(m) => m.clone(),
            None => match default_source {
                Some(s) => s.clone(),
                None => {
                    return Err(ApiError::bad_request(ApiErrorCode::BadRequest, "customer does not have a payment method set"));
                },
            },
        };
        Ok((customer, method))
    }

    /// Whether a finalized invoice is to be paid now: only an open one is.
    pub fn should_pay(status: Option<InvoiceStatus>) -> (r: bool)
        ensures
            r == (status == Some(InvoiceStatus::Open)),
    {
        status == Some(InvoiceStatus::Open)
    }

    /// The status of the invoice after trying to pay it: the paid invoice's
    /// status, or the finalized one's when the card was declined; any other
    /// failure is an error.
    pub fn status_after_payment(finalized: Option<InvoiceStatus>, outcome: PayOutcome) -> (r: Result<Option<InvoiceStatus>, ApiError>)
        ensures
            r == (match outcome {
                PayOutcome::Paid(s) => Ok::<Option<InvoiceStatus>, ApiError>(s),
                PayOutcome::CardDeclined => Ok(finalized),
                PayOutcome::Failed => Err(pay_failed()),
            }),
    {
        match outcome {
            PayOutcome::Paid(s) => Ok(s),
            PayOutcome::CardDeclined => Ok(finalized),
            PayOutcome::Failed => Err(ApiError::internal_server_error(ApiErrorCode::StripeError, "failed to pay invoice")),
        }
    }

    /// The answer for an invoiced period: its invoice, declined when the
    /// invoice is still open. An invoice without a status is an error.
    pub fn invoiced_response(invoice_id: String, status: Option<InvoiceStatus>) -> (r: Result<CreateSubscriptionPeriodResponse, ApiError>)
        ensures
            status is None ==> r == Err::<CreateSubscriptionPeriodResponse, ApiError>(status_missing()),
            status matches Some(s) ==> (r matches Ok(resp) && resp.success && resp.invoice_id == Some(invoice_id)
                && resp.payment_declined == (s == InvoiceStatus::Open)),
    {
        match status {
            None => Err(ApiError::internal_server_error(ApiErrorCode::StripeError, "invoice status is missing")),
            Some(s) => Ok(CreateSubscriptionPeriodResponse {
                success: true,
                invoice_id: Some(invoice_id),
                payment_declined: s == InvoiceStatus::Open,
            }),
        }
    }

    /// The period granted without an invoice: of the chosen variant, for the
    /// asked time, not a trial, not renewing, not a gift, created by the
    /// system for the given reason, in the user's subscription to the
    /// product.
    pub fn granted_period(
        id: Id,
        variant: &ProductVariant,
        product_id: Id,
        user_id: Id,
        start: i64,
        end: i64,
        reason: String,
    ) -> (p: SubscriptionPeriod)
        ensures
            p.id == id,
            p.variant_id@ == variant.id@,
            p.start == start,
            p.end == end,
            !p.is_trial,
            !p.auto_renew,
            p.gifted_by is None,
            p.reason matches Some(t) && t@ == reason@,
            p.product_id == product_id,
            p.user_id == user_id,
    {
        SubscriptionPeriod {
            id,
            variant_id: variant.id.clone(),
            start,
            end,
            is_trial: false,
            auto_renew: false,
            gifted_by: None,
            reason: Some(reason),
            product_id,
            user_id,
        }
    }

    /// The answer for a period granted without an invoice.
    pub fn granted_response() -> (r: CreateSubscriptionPeriodResponse)
        ensures
            r.success,
            r.invoice_id is None,
            !r.payment_declined,
    {
        CreateSubscriptionPeriodResponse { success: true, invoice_id: None, payment_declined: false }
    }
}

} // verus!
