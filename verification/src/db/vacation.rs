//! How recording, editing and deleting vacation entries moves the
//! employee's stored balances.
use vstd::prelude::*;
use crate::decimal::{Dec, checked_sub, dec_checked_sub, lemma_units_sign, lit};

verus! {

/// How an employee's balances move: by `dollars` and by `days`, and
/// whether they move at all.
#[derive(Debug, Clone, Copy)]
pub struct BalanceChange {
    pub dollars: Dec,
    pub days: Dec,
    pub changed: bool,
}

/// Editing an entry moves the employee's balances by the difference
/// between its new balances and the stored ones (cents and thousandths of
/// a day).  `None` where a difference overflows.
pub fn edited_balance_change(
    new_balance_after: Dec,
    old_balance_cents: i64,
    new_balance_after_days: Dec,
    old_balance_days_thousandths: i64,
) -> (r: Option<BalanceChange>)
    requires
        new_balance_after.wf(),
        new_balance_after_days.wf(),
    ensures
        ({
            let d = dec_checked_sub(new_balance_after, lit(old_balance_cents as int, 2));
            let dd = dec_checked_sub(new_balance_after_days, lit(old_balance_days_thousandths as int, 3));
            if d is Some && dd is Some {
                r matches Some(c) && c.dollars == d->0 && c.days == dd->0 && c.changed == (
                d->0.units() != 0 || dd->0.units() != 0)
            } else {
                r is None
            }
        }),
{
    let old_balance = Dec::new(old_balance_cents, 2);
    let dollars = checked_sub(new_balance_after, old_balance)?;
    let old_days = Dec::new(old_balance_days_thousandths, 3);
    let days = checked_sub(new_balance_after_days, old_days)?;
    proof {
        lemma_units_sign(dollars);
        lemma_units_sign(days);
    }
    Some(BalanceChange { dollars, days, changed: !dollars.is_zero() || !days.is_zero() })
}

/// Deleting an entry reverses it: the balances move by minus its stored
/// amounts (cents and thousandths of a day).
pub fn deleted_balance_change(amount_cents: i64, amount_days_thousandths: i64) -> (r: BalanceChange)
    ensures
        r.dollars == lit(-(amount_cents as int), 2),
        r.days == lit(-(amount_days_thousandths as int), 3),
        r.changed == (amount_cents != 0 || amount_days_thousandths != 0),
        r.dollars.wf() && r.days.wf(),
{
    let dollars = Dec { mantissa: -(amount_cents as i128), scale: 2 };
    let days = Dec { mantissa: -(amount_days_thousandths as i128), scale: 3 };
    BalanceChange {
        dollars,
        days,
        changed: amount_cents != 0 || amount_days_thousandths != 0,
    }
}

} // verus!
