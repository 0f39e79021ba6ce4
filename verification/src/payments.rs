//! Mercado Pago checkout references and the payment-notification webhook's decisions.
use vstd::prelude::*;
use crate::http::HttpStatus;
use crate::ids::{lemma_uuid_text_shape, parse_uuid, uuid_parse, uuid_text, uuid_to_text};
use crate::text::{has_prefix, lemma_replace_absent, lemma_replace_unmatched, owned, replace, replace_all, str_eq, u64_to_text, decimal_text};

verus! {

/// Response to a checkout request: the URL where the payer completes the payment.
pub struct CheckoutResponse {
    pub init_point: String,
}

/// A tenant's Mercado Pago credentials and bank details.
pub struct UpdatePaymentConfigDto {
    pub mp_access_token: String,
    pub mp_public_key: String,
    pub cbu: String,
    pub alias: String,
}

/// External reference of the SaaS subscription checkout of a tenant.
pub fn subscription_reference(tenant_id: u128) -> (r: String)
    ensures
        r@ == "SUBSCRIPTION_"@ + uuid_text(tenant_id),
{
    let mut r = owned("SUBSCRIPTION_");
    let id = uuid_to_text(tenant_id);
    r.append(id.as_str());
    r
}

/// External reference of the rent checkout of an invoice.
pub fn rent_reference(invoice_id: u128) -> (r: String)
    ensures
        r@ == "RENT_"@ + uuid_text(invoice_id),
{
    let mut r = owned("RENT_");
    let id = uuid_to_text(invoice_id);
    r.append(id.as_str());
    r
}

/// A webhook notification is about a payment when its action is `payment.created` or
/// `payment.updated`, or its type is `payment`.
pub open spec fn is_payment_event(action: Seq<char>, kind: Seq<char>) -> bool {
    action == "payment.created"@ || action == "payment.updated"@ || kind == "payment"@
}

/// Whether a notification with this `action` and `type` concerns a payment.
pub fn is_payment_notification(action: &str, kind: &str) -> (r: bool)
    ensures
        r == is_payment_event(action@, kind@),
{
    str_eq(action, "payment.created") || str_eq(action, "payment.updated") || str_eq(kind, "payment")
}

/// The `data.id` field of a notification, as the payload carries it.
pub enum NotificationId {
    Text(String),
    Number(u64),
    /// Missing, or of another JSON type.
    Absent,
}

/// The payment id of a notification: its text, or the decimal text of its number.
pub fn payment_id_text(id: NotificationId) -> (r: Option<String>)
    ensures
        match id {
            NotificationId::Text(s) => r matches Some(t) && t@ == s@,
            NotificationId::Number(n) => r matches Some(t) && t@ == decimal_text(n as nat),
            NotificationId::Absent => r is None,
        },
{
    match id {
        NotificationId::Text(s) => Some(s),
        NotificationId::Number(n) => Some(u64_to_text(n)),
        NotificationId::Absent => None,
    }
}

/// Status answered to a payment notification without a usable payment id.
pub fn missing_payment_id_status() -> (r: HttpStatus)
    ensures
        r == HttpStatus::BadRequest,
{
    HttpStatus::BadRequest
}

/// The external reference to settle: the one Mercado Pago's API reports when the lookup
/// succeeded (`Some`, empty when it reports none), else the payload's own reference, else the
/// payment id.
pub fn resolve_external_reference(
    api_reference: Option<String>,
    payload_reference: Option<String>,
    payment_id: &str,
) -> (r: String)
    ensures
        r@ == (match api_reference {
            Some(a) => a@,
            None => match payload_reference {
                Some(p) => if p@.len() > 0 { p@ } else { payment_id@ },
                None => payment_id@,
            },
        }),
{
    match api_reference {
        Some(a) => a,
        None => match payload_reference {
            Some(p) => {
                if p.as_str().unicode_len() > 0 {
                    p
                } else {
                    owned(payment_id)
                }
            },
            None => owned(payment_id),
        },
    }
}

/// The invoice that an external reference designates: the reference without `RENT_`, read as a UUID.
pub open spec fn reference_invoice(reference: Seq<char>) -> Option<u128> {
    uuid_parse(replace_all(reference, "RENT_"@, ""@))
}

/// Invoice id of an external reference, when it names one. The rent reference of an invoice
/// leads back to that invoice.
pub fn invoice_from_reference(reference: &str) -> (r: Option<u128>)
    ensures
        r == reference_invoice(reference@),
        forall|id: u128| reference@ == "RENT_"@ + #[trigger] uuid_text(id) ==> r == Some(id),
        forall|tenant_id: u128| reference@ == "SUBSCRIPTION_"@ + #[trigger] uuid_text(tenant_id) ==> r is None,
{
    proof {
        reveal_strlit("RENT_");
    }
    let cleaned = replace(reference, "RENT_", "");
    let r = parse_uuid(cleaned.as_str());
    proof {
        assert forall|id: u128| reference@ == "RENT_"@ + #[trigger] uuid_text(id) implies r == Some(id) by {
            lemma_rent_reference_strip(id);
            lemma_uuid_text_shape(id);
        }
        assert forall|tenant_id: u128| reference@ == "SUBSCRIPTION_"@ + #[trigger] uuid_text(tenant_id) implies r is None by {
            lemma_subscription_reference_kept(tenant_id);
        }
    }
    r
}

/// An invoice is settled by a notification only while it is not paid yet.
pub fn settles_invoice(invoice_status: &str) -> (r: bool)
    ensures
        r == (invoice_status@ != "PAID"@),
{
    !str_eq(invoice_status, "PAID")
}

/// The subscription reference of a tenant holds no `RENT_`, so removing it changes nothing,
/// and it is longer than any text the UUID parser accepts.
pub proof fn lemma_subscription_reference_kept(tenant_id: u128)
    ensures
        replace_all("SUBSCRIPTION_"@ + uuid_text(tenant_id), "RENT_"@, ""@) == "SUBSCRIPTION_"@ + uuid_text(tenant_id),
        ("SUBSCRIPTION_"@ + uuid_text(tenant_id)).len() == 49,
{
    reveal_strlit("RENT_");
    reveal_strlit("SUBSCRIPTION_");
    let t = uuid_text(tenant_id);
    let s = "SUBSCRIPTION_"@ + t;
    let from = "RENT_"@;
    assert forall|i: int| 0 <= i < s.len() implies !has_prefix(#[trigger] s.skip(i), from) by {
        if has_prefix(s.skip(i), from) {
            assert(s.skip(i).take(5)[0] == s[i]);
            assert(s.skip(i).take(5)[1] == s[i + 1]);
            if i >= 13 {
                let p = i - 13;
                assert(s[i] == t[p]);
                if !crate::ids::is_hyphen_pos(p) {
                    vstd::arithmetic::div_mod::lemma_mod_bound(
                        tenant_id as int / vstd::arithmetic::power::pow(
                            16,
                            (31 - crate::ids::digit_index(p)) as nat,
                        ),
                        16,
                    );
                }
            }
        }
    }
    lemma_replace_unmatched(s, from, ""@);
}

/// Removing `RENT_` from the rent reference of an invoice leaves the invoice's UUID text.
pub proof fn lemma_rent_reference_strip(invoice_id: u128)
    ensures
        replace_all("RENT_"@ + uuid_text(invoice_id), "RENT_"@, ""@) == uuid_text(invoice_id),
{
    reveal_strlit("RENT_");
    reveal_strlit("");
    let t = uuid_text(invoice_id);
    let s = "RENT_"@ + t;
    let from = "RENT_"@;
    assert(s.take(5) =~= from);
    assert(s.skip(5) =~= t);
    assert forall|i: int| 0 <= i < t.len() implies t[i] != from[0] by {
        if !crate::ids::is_hyphen_pos(i) {
            vstd::arithmetic::div_mod::lemma_mod_bound(
                invoice_id as int / vstd::arithmetic::power::pow(
                    16,
                    (31 - crate::ids::digit_index(i)) as nat,
                ),
                16,
            );
        }
    }
    lemma_replace_absent(t, from, ""@);
    assert(""@ + replace_all(s.skip(5), from, ""@) =~= t);
}

} // verus!
