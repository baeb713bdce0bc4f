//! The queries that list and count stored pays with optional filters.
use vstd::prelude::*;
use crate::date::{Date, date_text, iso_date_text};
use crate::tax::config::texts;
use crate::text::{char_count, i64_text, int_text, push_str, to_owned_string};

verus! {

/// What to select from the stored pays.
#[derive(Debug, Clone)]
pub struct PayrollHistoryFilter {
    pub employee_id: Option<i64>,
    pub pay_date_from: Option<Date>,
    pub pay_date_to: Option<Date>,
    /// Part of an employee's first name, last name or number.
    pub search_term: Option<String>,
    pub limit: Option<i64>,
    pub offset: Option<i64>,
}

impl PayrollHistoryFilter {
    /// No filter at all.
    pub fn new() -> (r: PayrollHistoryFilter)
        ensures
            r.employee_id is None && r.pay_date_from is None && r.pay_date_to is None,
            r.search_term is None && r.limit is None && r.offset is None,
    {
        PayrollHistoryFilter {
            employee_id: None,
            pay_date_from: None,
            pay_date_to: None,
            search_term: None,
            limit: None,
            offset: None,
        }
    }
}

/// A query and its parameters, numbered from 1.
#[derive(Debug, Clone)]
pub struct HistoryQuery {
    pub sql: String,
    pub params: Vec<String>,
}

/// The conditions of a filter in order, each a kind (employee, paid from,
/// paid to, search) and its parameter: the employee id, the dates as
/// `YYYY-MM-DD`, and a search term wrapped in `%`; an empty search term
/// sets no condition.
pub open spec fn filter_conditions(f: PayrollHistoryFilter) -> Seq<(int, Seq<char>)> {
    let a = match f.employee_id {
        Some(id) => seq![(0int, int_text(id as int))],
        None => Seq::empty(),
    };
    let b = match f.pay_date_from {
        Some(d) => seq![(1int, iso_date_text(d))],
        None => Seq::empty(),
    };
    let c = match f.pay_date_to {
        Some(d) => seq![(2int, iso_date_text(d))],
        None => Seq::empty(),
    };
    let s = match f.search_term {
        Some(t) => if t@.len() > 0 {
            seq![(3int, "%"@ + t@ + "%"@)]
        } else {
            Seq::empty()
        },
        None => Seq::empty(),
    };
    a + b + c + s
}

/// The SQL of a condition whose parameter is number `idx`.
pub open spec fn condition_text(kind: int, idx: int) -> Seq<char> {
    if kind == 0 {
        " AND h.employee_id = ?"@ + int_text(idx)
    } else if kind == 1 {
        " AND h.pay_date >= ?"@ + int_text(idx)
    } else if kind == 2 {
        " AND h.pay_date <= ?"@ + int_text(idx)
    } else {
        " AND (e.first_name LIKE ?"@ + int_text(idx) + " OR e.last_name LIKE ?"@ + int_text(idx)
            + " OR e.employee_number LIKE ?"@ + int_text(idx) + ")"@
    }
}

/// The conditions' SQL, their parameters numbered 1, 2, ...
pub open spec fn conditions_text(cs: Seq<(int, Seq<char>)>) -> Seq<char>
    decreases cs.len(),
{
    if cs.len() == 0 {
        Seq::empty()
    } else {
        conditions_text(cs.drop_last()) + condition_text(cs.last().0, cs.len() as int)
    }
}

pub open spec fn condition_params(cs: Seq<(int, Seq<char>)>) -> Seq<Seq<char>> {
    cs.map_values(|c: (int, Seq<char>)| c.1)
}

pub open spec fn list_prefix() -> Seq<char> {
    LIST_PREFIX@
}

pub open spec fn count_prefix() -> Seq<char> {
    COUNT_PREFIX@
}

/// The query that lists the stored pays that match, latest pay date
/// first, with the page's limit and offset when set.
pub open spec fn list_query_text(f: PayrollHistoryFilter) -> (Seq<char>, Seq<Seq<char>>) {
    let cs = filter_conditions(f);
    let n = cs.len() as int;
    let base = list_prefix() + conditions_text(cs) + " ORDER BY h.pay_date DESC"@;
    let (with_limit, limit_params, next) = match f.limit {
        Some(l) => (base + " LIMIT ?"@ + int_text(n + 1), seq![int_text(l as int)], n + 2),
        None => (base, Seq::<Seq<char>>::empty(), n + 1),
    };
    match f.offset {
        Some(o) => (
            with_limit + " OFFSET ?"@ + int_text(next),
            condition_params(cs) + limit_params + seq![int_text(o as int)],
        ),
        None => (with_limit, condition_params(cs) + limit_params),
    }
}

/// The query that counts the stored pays that match.
pub open spec fn count_query_text(f: PayrollHistoryFilter) -> (Seq<char>, Seq<Seq<char>>) {
    let cs = filter_conditions(f);
    (count_prefix() + conditions_text(cs), condition_params(cs))
}

fn push_condition(sql: &mut String, kind: u8, idx: i64)
    requires
        kind <= 3,
    ensures
        final(sql)@ == old(sql)@ + condition_text(kind as int, idx as int),
{
    let t = i64_text(idx);
    if kind == 0 {
        push_str(sql, " AND h.employee_id = ?");
        push_str(sql, t.as_str());
    } else if kind == 1 {
        push_str(sql, " AND h.pay_date >= ?");
        push_str(sql, t.as_str());
    } else if kind == 2 {
        push_str(sql, " AND h.pay_date <= ?");
        push_str(sql, t.as_str());
    } else {
        push_str(sql, " AND (e.first_name LIKE ?");
        push_str(sql, t.as_str());
        push_str(sql, " OR e.last_name LIKE ?");
        push_str(sql, t.as_str());
        push_str(sql, " OR e.employee_number LIKE ?");
        push_str(sql, t.as_str());
        push_str(sql, ")");
    }
    proof {
        assert(final(sql)@ =~= old(sql)@ + condition_text(kind as int, idx as int));
    }
}

proof fn lemma_conditions_push(cs: Seq<(int, Seq<char>)>, c: (int, Seq<char>))
    ensures
        conditions_text(cs.push(c)) == conditions_text(cs) + condition_text(c.0, cs.len() + 1int),
        condition_params(cs.push(c)) == condition_params(cs).push(c.1),
{
    assert(cs.push(c).drop_last() =~= cs);
    assert(condition_params(cs.push(c)) =~= condition_params(cs).push(c.1));
}

/// The conditions of a filter as SQL, appended to `sql`, and their parameters.
fn filter_sql(f: &PayrollHistoryFilter, sql: &mut String) -> (params: Vec<String>)
    ensures
        final(sql)@ == old(sql)@ + conditions_text(filter_conditions(*f)),
        texts(params@) == condition_params(filter_conditions(*f)),
{
    let ghost start = sql@;
    let ghost mut cs: Seq<(int, Seq<char>)> = Seq::empty();
    let mut params: Vec<String> = Vec::new();
    let mut idx: i64 = 1;
    proof {
        assert(sql@ =~= start + conditions_text(cs));
        assert(texts(params@) =~= condition_params(cs));
    }
    if let Some(id) = f.employee_id {
        push_condition(sql, 0, idx);
        params.push(i64_text(id));
        proof {
            lemma_conditions_push(cs, (0int, int_text(id as int)));
            cs = cs.push((0int, int_text(id as int)));
            assert(texts(params@) =~= condition_params(cs));
        }
        idx = idx + 1;
    }
    if let Some(d) = f.pay_date_from {
        push_condition(sql, 1, idx);
        params.push(date_text(d));
        proof {
            lemma_conditions_push(cs, (1int, iso_date_text(d)));
            cs = cs.push((1int, iso_date_text(d)));
            assert(texts(params@) =~= condition_params(cs));
        }
        idx = idx + 1;
    }
    if let Some(d) = f.pay_date_to {
        push_condition(sql, 2, idx);
        params.push(date_text(d));
        proof {
            lemma_conditions_push(cs, (2int, iso_date_text(d)));
            cs = cs.push((2int, iso_date_text(d)));
            assert(texts(params@) =~= condition_params(cs));
        }
        idx = idx + 1;
    }
    if let Some(t) = &f.search_term {
        if char_count(t.as_str()) > 0 {
            push_condition(sql, 3, idx);
            let mut p = to_owned_string("%");
            push_str(&mut p, t.as_str());
            push_str(&mut p, "%");
            params.push(p);
            proof {
                lemma_conditions_push(cs, (3int, "%"@ + t@ + "%"@));
                cs = cs.push((3int, "%"@ + t@ + "%"@));
                assert(texts(params@) =~= condition_params(cs));
            }
        }
    }
    proof {
        assert(cs =~= filter_conditions(*f));
        assert(sql@ =~= start + conditions_text(cs));
    }
    params
}

/// The query listing the stored pays that match `f` (see `list_query_text`).
pub fn list_query(f: &PayrollHistoryFilter) -> (r: HistoryQuery)
    ensures
        r.sql@ == list_query_text(*f).0,
        texts(r.params@) == list_query_text(*f).1,
{
    let mut sql = to_owned_string(LIST_PREFIX);
    let mut params = filter_sql(f, &mut sql);
    let ghost cs = filter_conditions(*f);
    let n = params.len();
    proof {
        assert(texts(params@).len() == cs.len());
        assert(n == cs.len());
    }
    push_str(&mut sql, " ORDER BY h.pay_date DESC");
    let mut next: usize = n + 1;
    if let Some(l) = f.limit {
        push_str(&mut sql, " LIMIT ?");
        let t = i64_text(next as i64);
        push_str(&mut sql, t.as_str());
        params.push(i64_text(l));
        next = n + 2;
    }
    if let Some(o) = f.offset {
        push_str(&mut sql, " OFFSET ?");
        let t = i64_text(next as i64);
        push_str(&mut sql, t.as_str());
        params.push(i64_text(o));
    }
    proof {
        assert(sql@ =~= list_query_text(*f).0);
        assert(texts(params@) =~= list_query_text(*f).1);
    }
    HistoryQuery { sql, params }
}

/// The query counting the stored pays that match `f`.
pub fn count_query(f: &PayrollHistoryFilter) -> (r: HistoryQuery)
    ensures
        r.sql@ == count_query_text(*f).0,
        texts(r.params@) == count_query_text(*f).1,
{
    let mut sql = to_owned_string(COUNT_PREFIX);
    let params = filter_sql(f, &mut sql);
    HistoryQuery { sql, params }
}

/// What an SQL comparison operator admits, given how the column's value
/// compares with the parameter: `c` negative when less, zero when equal,
/// positive when greater.
pub open spec fn sql_comparison_admits(op: Seq<char>, c: int) -> bool {
    ||| op == "="@ && c == 0
    ||| op == "<"@ && c < 0
    ||| op == "<="@ && c <= 0
    ||| op == ">"@ && c > 0
    ||| op == ">="@ && c >= 0
}

/// The date conditions of a filter. The from-date condition compares a
/// pay's date with its numbered parameter by an operator that admits
/// exactly the dates on or after the parameter, and the to-date condition
/// by one that admits exactly the dates on or before it. A filter's
/// from-date (to-date) gives a from-date (to-date) condition whose
/// parameter is that date as `YYYY-MM-DD`, and no filter without one gives
/// such a condition.
pub proof fn law_date_conditions(f: PayrollHistoryFilter, idx: int)
    ensures
        exists|op: Seq<char>|
            condition_text(1, idx) == " AND h.pay_date "@ + op + " ?"@ + int_text(idx) && forall|
                c: int,
            | #[trigger] sql_comparison_admits(op, c) <==> c >= 0,
        exists|op: Seq<char>|
            condition_text(2, idx) == " AND h.pay_date "@ + op + " ?"@ + int_text(idx) && forall|
                c: int,
            | #[trigger] sql_comparison_admits(op, c) <==> c <= 0,
        forall|k: int|
            0 <= k < filter_conditions(f).len() && (#[trigger] filter_conditions(f)[k]).0 == 1 ==> (
            f.pay_date_from matches Some(d) && filter_conditions(f)[k].1 == iso_date_text(d)),
        forall|k: int|
            0 <= k < filter_conditions(f).len() && (#[trigger] filter_conditions(f)[k]).0 == 2 ==> (
            f.pay_date_to matches Some(d) && filter_conditions(f)[k].1 == iso_date_text(d)),
        f.pay_date_from matches Some(d) ==> filter_conditions(f).contains((1int, iso_date_text(d))),
        f.pay_date_to matches Some(d) ==> filter_conditions(f).contains((2int, iso_date_text(d))),
{
    reveal_strlit(" AND h.pay_date >= ?");
    reveal_strlit(" AND h.pay_date <= ?");
    reveal_strlit(" AND h.pay_date ");
    reveal_strlit(" ?");
    reveal_strlit("=");
    reveal_strlit("<");
    reveal_strlit("<=");
    reveal_strlit(">");
    reveal_strlit(">=");
    let ge = ">="@;
    let le = "<="@;
    assert(condition_text(1, idx) =~= " AND h.pay_date "@ + ge + " ?"@ + int_text(idx));
    assert(condition_text(2, idx) =~= " AND h.pay_date "@ + le + " ?"@ + int_text(idx));
    assert forall|c: int| #[trigger] sql_comparison_admits(ge, c) <==> c >= 0 by {
        assert(ge.len() == 2 && "="@.len() == 1 && "<"@.len() == 1 && ">"@.len() == 1);
        assert(ge[0] != le[0]);
    }
    assert forall|c: int| #[trigger] sql_comparison_admits(le, c) <==> c <= 0 by {
        assert(le.len() == 2 && "="@.len() == 1 && "<"@.len() == 1 && ">"@.len() == 1);
        assert(ge[0] != le[0]);
    }
    let cs = filter_conditions(f);
    let a = match f.employee_id {
        Some(id) => seq![(0int, int_text(id as int))],
        None => Seq::<(int, Seq<char>)>::empty(),
    };
    let b = match f.pay_date_from {
        Some(d) => seq![(1int, iso_date_text(d))],
        None => Seq::<(int, Seq<char>)>::empty(),
    };
    let c = match f.pay_date_to {
        Some(d) => seq![(2int, iso_date_text(d))],
        None => Seq::<(int, Seq<char>)>::empty(),
    };
    let t = match f.search_term {
        Some(x) => if x@.len() > 0 {
            seq![(3int, "%"@ + x@ + "%"@)]
        } else {
            Seq::<(int, Seq<char>)>::empty()
        },
        None => Seq::<(int, Seq<char>)>::empty(),
    };
    assert(cs == a + b + c + t);
    assert forall|k: int| 0 <= k < cs.len() implies (#[trigger] cs[k]).0 == (if k < a.len() {
        0int
    } else if k < a.len() + b.len() {
        1int
    } else if k < a.len() + b.len() + c.len() {
        2int
    } else {
        3int
    }) && (k < a.len() + b.len() && a.len() <= k ==> cs[k] == b[k - a.len()]) && (a.len() + b.len()
        <= k < a.len() + b.len() + c.len() ==> cs[k] == c[k - a.len() - b.len()]) by {}
    if let Some(d) = f.pay_date_from {
        assert(cs[a.len() as int] == (1int, iso_date_text(d)));
    }
    if let Some(d) = f.pay_date_to {
        assert(cs[(a.len() + b.len()) as int] == (2int, iso_date_text(d)));
    }
}


pub const LIST_PREFIX: &'static str = "SELECT h.id, h.employee_id, h.pay_period_start_date, h.pay_period_end_date, h.pay_date,\n                    h.pay_period_number, h.total_pay_periods, h.regular_hours, h.overtime_hours, h.gross_pay,\n                    h.additional_earnings, h.insured_earning, h.additional_tax_amount, h.cpp_deduction, h.cpp2_deduction, h.ei_deduction,\n                    h.federal_tax, h.provincial_tax, h.additional_deductions, h.net_pay, h.federal_personal_amount,\n                    h.provincial_personal_amount, h.province, h.created_at, h.remittance_id\n             FROM history h\n             LEFT JOIN employee e ON h.employee_id = e.id\n             WHERE 1=1";

pub const COUNT_PREFIX: &'static str = "SELECT COUNT(*)\n             FROM history h\n             LEFT JOIN employee e ON h.employee_id = e.id\n             WHERE 1=1";

} // verus!
