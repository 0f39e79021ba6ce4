//! Invoices and owner liquidations.
use vstd::prelude::*;
use crate::dates::CalendarDate;
use crate::money::{Amount, checked_sub, decimal_sub, exact_result, fits_exactly};

verus! {

/// What an owner is owed from one paid invoice.
pub struct Liquidation {
    pub owner_name: String,
    pub property_title: String,
    pub total_collected: Amount,
    pub commission_deducted: Amount,
    pub net_to_transfer: Amount,
}

/// A paid invoice as the liquidation reads it.
pub struct LiquidationRecord {
    pub amount: Amount,
    pub commission: Option<Amount>,
    pub property_title: String,
    pub owner_name: Option<String>,
}

/// A request to create an invoice for a contract.
pub struct CreateInvoiceDto {
    pub contract_id: u128,
    pub amount: Amount,
    pub commission: Amount,
    pub due_date: CalendarDate,
}

/// The liquidation that a paid invoice gives: the amount collected, the commission (zero when
/// none was recorded), their difference (`None` when it overflows the decimal range), and the
/// owner's name (empty when unknown).
pub open spec fn liquidation_matches(rec: LiquidationRecord, l: Liquidation) -> bool {
    let comm = match rec.commission { Some(c) => c, None => Amount { mantissa: 0, scale: 0 } };
    &&& decimal_sub(rec.amount, comm) == Some(l.net_to_transfer)
    &&& (fits_exactly(rec.amount, comm) ==> exact_result(rec.amount, comm, l.net_to_transfer))
    &&& l.total_collected == rec.amount
    &&& l.commission_deducted == comm
    &&& l.property_title == rec.property_title
    &&& l.owner_name@ == (match rec.owner_name { Some(n) => n@, None => Seq::<char>::empty() })
}

/// Some difference of `rec` overflows the decimal range.
pub open spec fn liquidation_overflows(rec: LiquidationRecord) -> bool {
    decimal_sub(rec.amount, match rec.commission { Some(c) => c, None => Amount { mantissa: 0, scale: 0 } }) is None
}

/// The liquidation of a paid invoice: the amount collected, the commission (zero when none was
/// recorded) and their difference. `None` when the difference overflows the decimal range.
pub fn liquidation_of(rec: LiquidationRecord) -> (r: Option<Liquidation>)
    requires
        rec.amount.wf(),
        rec.commission matches Some(c) ==> c.wf(),
    ensures
        ({
            let comm = match rec.commission { Some(c) => c, None => Amount { mantissa: 0, scale: 0 } };
            &&& decimal_sub(rec.amount, comm) is None ==> r is None
            &&& decimal_sub(rec.amount, comm) matches Some(net) ==> r matches Some(l)
                && l.total_collected == rec.amount
                && l.commission_deducted == comm
                && l.net_to_transfer == net
                && l.property_title == rec.property_title
                && l.owner_name@ == (match rec.owner_name { Some(n) => n@, None => Seq::<char>::empty() })
            &&& fits_exactly(rec.amount, comm) ==> (r matches Some(l) && exact_result(rec.amount, comm, l.net_to_transfer))
        }),
{
    let comm = match rec.commission {
        Some(c) => c,
        None => Amount::zero(),
    };
    match checked_sub(rec.amount, comm) {
        None => None,
        Some(net) => Some(Liquidation {
            owner_name: match rec.owner_name {
                Some(n) => n,
                None => String::new(),
            },
            property_title: rec.property_title,
            total_collected: rec.amount,
            commission_deducted: comm,
            net_to_transfer: net,
        }),
    }
}

/// The liquidations of the paid invoices, in order; `None` when the net of one of them
/// overflows the decimal range.
pub fn liquidations(records: Vec<LiquidationRecord>) -> (r: Option<Vec<Liquidation>>)
    requires
        forall|i: int| 0 <= i < records.len() ==> (#[trigger] records[i]).amount.wf()
            && (records[i].commission matches Some(c) ==> c.wf()),
    ensures
        r is None <==> exists|i: int| 0 <= i < records.len() && liquidation_overflows(#[trigger] records[i]),
        r matches Some(v) ==> v.len() == records.len()
            && forall|i: int| 0 <= i < records.len() ==> liquidation_matches(records[i], #[trigger] v[i]),
{
    let ghost orig = records@;
    let mut out: Vec<Liquidation> = Vec::new();
    let mut rest = records;
    while rest.len() > 0
        invariant
            orig == records@,
            out.len() + rest.len() == orig.len(),
            rest@ == orig.skip(out.len() as int),
            forall|i: int| 0 <= i < orig.len() ==> (#[trigger] orig[i]).amount.wf()
                && (orig[i].commission matches Some(c) ==> c.wf()),
            forall|i: int| 0 <= i < out.len() ==> liquidation_matches(orig[i], #[trigger] out[i]),
            forall|i: int| 0 <= i < out.len() ==> !liquidation_overflows(#[trigger] orig[i]),
        decreases rest.len(),
    {
        let ghost k = out.len() as int;
        let rec = rest.remove(0);
        assert(rec == orig[k]);
        match liquidation_of(rec) {
            Some(l) => {
                out.push(l);
            },
            None => {
                assert(liquidation_overflows(orig[k]));
                return None;
            },
        }
        assert(rest@ =~= orig.skip(out.len() as int));
    }
    Some(out)
}

} // verus!
