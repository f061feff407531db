//! Workshop statistics: budget totals and the overall variance rate read from stored
//! sums, the budget summary of each workshop of a project, and the counts of workshops
//! by location and by project.

use vstd::prelude::*;
use crate::amount::{decimal_div, decimal_mul, decimal_parsed, decimal_sub, Amount};
use crate::errors::DomainError;
use crate::ident::{parse_uuid_text, uuid_parsed};
use crate::strategic_goal::{distinct_names, entries_map, merge_counts};
use crate::text::join2;

verus! {

fn read_total(text: &str, prefix: &str) -> (r: Result<Amount, DomainError>)
    ensures
        match decimal_parsed(text@) {
            Ok(p) => r matches Ok(a) && a.parts() == p,
            Err(_) => r matches Err(DomainError::Internal(m)) && m@ == prefix@ + text@,
        },
{
    match Amount::parse(text) {
        Ok(a) => Ok(a),
        Err(_) => Err(DomainError::Internal(join2(prefix, text))),
    }
}

/// Reads the stored totals of budgets, actuals and variances; the first that is no
/// decimal number is an internal error naming it.
pub fn parse_budget_totals(total_budget: &str, total_actuals: &str, total_variance: &str) -> (r: Result<(Amount, Amount, Amount), DomainError>)
    ensures
        match decimal_parsed(total_budget@) {
            Err(_) => r matches Err(DomainError::Internal(m)) && m@ == "Failed to parse budget value: "@ + total_budget@,
            Ok(pb) => match decimal_parsed(total_actuals@) {
                Err(_) => r matches Err(DomainError::Internal(m)) && m@ == "Failed to parse actuals value: "@ + total_actuals@,
                Ok(pa) => match decimal_parsed(total_variance@) {
                    Err(_) => r matches Err(DomainError::Internal(m)) && m@ == "Failed to parse variance value: "@ + total_variance@,
                    Ok(pv) => r matches Ok((b, a, v)) && b.parts() == pb && a.parts() == pa && v.parts() == pv,
                },
            },
        },
{
    let b = match read_total(total_budget, "Failed to parse budget value: ") {
        Ok(x) => x,
        Err(e) => return Err(e),
    };
    let a = match read_total(total_actuals, "Failed to parse actuals value: ") {
        Ok(x) => x,
        Err(e) => return Err(e),
    };
    let v = match read_total(total_variance, "Failed to parse variance value: ") {
        Ok(x) => x,
        Err(e) => return Err(e),
    };
    Ok((b, a, v))
}

/// The amount a stored sum holds, or `default` when there is none or it is no decimal
/// number.
pub open spec fn parts_or(text: Option<String>, default: (i128, u32)) -> (i128, u32) {
    match text {
        Some(t) => match decimal_parsed(t@) {
            Ok(p) => p,
            Err(_) => default,
        },
        None => default,
    }
}

fn amount_or(text: &Option<String>, default: Amount) -> (r: Amount)
    ensures
        r.parts() == parts_or(*text, default.parts()),
{
    match text {
        Some(t) => match Amount::parse(t.as_str()) {
            Ok(a) => a,
            Err(_) => default,
        },
        None => default,
    }
}

/// The amount a stored sum holds, zero when there is none or it is no decimal number.
pub fn amount_or_zero(text: &Option<String>) -> (r: Amount)
    ensures
        r.parts() == parts_or(*text, (0, 0)),
{
    amount_or(text, Amount::from_parts(0, 0).unwrap())
}

/// The overall budget variance as a percentage, `(sum of variances / sum of budgets) *
/// 100.0`, from the stored sums over the workshops with a positive budget: zero when a
/// sum is missing or the budget sum is zero (a sum that is no number counts as zero for
/// the variances and one for the budgets); `None` when a step overflows.
pub open spec fn variance_rate_of(sum_variance: Option<String>, sum_budget: Option<String>) -> Option<(i128, u32)> {
    if sum_variance is Some && sum_budget is Some {
        let v = parts_or(sum_variance, (0, 0));
        let b = parts_or(sum_budget, (1, 0));
        if b.0 == 0 {
            Some((0, 0))
        } else {
            match decimal_div(v, b) {
                Some(q) => decimal_mul(q, (1000, 1)),
                None => None,
            }
        }
    } else {
        Some((0, 0))
    }
}

fn variance_rate(sum_variance: &Option<String>, sum_budget: &Option<String>) -> (r: Option<Amount>)
    ensures
        match variance_rate_of(*sum_variance, *sum_budget) {
            Some(p) => r matches Some(a) && a.parts() == p,
            None => r is None,
        },
{
    let zero = Amount::from_parts(0, 0).unwrap();
    if sum_variance.is_none() || sum_budget.is_none() {
        return Some(zero);
    }
    let v = amount_or(sum_variance, zero);
    let b = amount_or(sum_budget, Amount::from_parts(1, 0).unwrap());
    if b.is_zero() {
        return Some(zero);
    }
    let hundred = Amount::from_parts(1000, 1).unwrap();
    match v.checked_div(&b) {
        Some(q) => q.checked_mul(&hundred),
        None => None,
    }
}

/// The overall budget variance as a percentage, where no step overflows.
pub fn average_variance_rate(sum_variance: &Option<String>, sum_budget: &Option<String>) -> (r: Amount)
    requires
        variance_rate_of(*sum_variance, *sum_budget) is Some,
    ensures
        r.parts() == variance_rate_of(*sum_variance, *sum_budget).unwrap(),
{
    variance_rate(sum_variance, sum_budget).unwrap()
}

/// The overall budget variance as a percentage, or `None` when a step overflows.
pub fn checked_average_variance_rate(sum_variance: &Option<String>, sum_budget: &Option<String>) -> (r: Option<Amount>)
    ensures
        match variance_rate_of(*sum_variance, *sum_budget) {
            Some(p) => r matches Some(a) && a.parts() == p,
            None => r is None,
        },
{
    match variance_rate(sum_variance, sum_budget) {
        Some(_) => Some(average_variance_rate(sum_variance, sum_budget)),
        None => None,
    }
}

/// A workshop of a project, as its budget summary is read from the database.
#[derive(Clone, Debug)]
pub struct BudgetSummaryRow {
    pub id: String,
    pub purpose: Option<String>,
    pub event_date: Option<String>,
    pub budget: Option<String>,
    pub actuals: Option<String>,
}

/// The budget figures of a workshop of a project.
#[derive(Clone, Debug)]
pub struct WorkshopBudgetSummary {
    pub workshop_id: u128,
    pub purpose: Option<String>,
    pub event_date: Option<String>,
    pub budget: Option<Amount>,
    pub actuals: Option<Amount>,
    pub variance: Option<Amount>,
    pub variance_percentage: Option<Amount>,
}

/// The first fault of a summary row: an identifier that is no UUID, then a budget or
/// actuals that is no decimal number.
pub open spec fn summary_row_fault(row: BudgetSummaryRow) -> Option<Seq<char>> {
    if uuid_parsed(row.id@) is None {
        Some("Invalid UUID format in workshop id"@)
    } else if row.budget matches Some(t) && decimal_parsed(t@) is Err {
        Some("Invalid decimal format: "@ + row.budget.unwrap()@)
    } else if row.actuals matches Some(t) && decimal_parsed(t@) is Err {
        Some("Invalid decimal format: "@ + row.actuals.unwrap()@)
    } else {
        None
    }
}

/// The amount an optional stored text holds, when it is a decimal number.
pub open spec fn parsed_opt(text: Option<String>) -> Option<(i128, u32)> {
    match text {
        Some(t) => match decimal_parsed(t@) {
            Ok(p) => Some(p),
            Err(_) => None,
        },
        None => None,
    }
}

/// Actuals minus budget, where both are known; `Some(None)` when it overflows.
pub open spec fn summary_variance(budget: Option<(i128, u32)>, actuals: Option<(i128, u32)>) -> Option<Option<(i128, u32)>> {
    match (budget, actuals) {
        (Some(b), Some(a)) => Some(decimal_sub(a, b)),
        _ => None,
    }
}

/// `((actuals - budget) * 100) / budget` for a non-zero budget; `Some(None)` when a step
/// overflows.
pub open spec fn summary_percentage(budget: Option<(i128, u32)>, actuals: Option<(i128, u32)>) -> Option<Option<(i128, u32)>> {
    match (budget, actuals) {
        (Some(b), Some(a)) => if b.0 == 0 {
            None
        } else {
            Some(match decimal_sub(a, b) {
                Some(d) => match decimal_mul(d, (100, 0)) {
                    Some(m) => decimal_div(m, b),
                    None => None,
                },
                None => None,
            })
        },
        _ => None,
    }
}

/// True when reading a summary row fails with an error or computes every figure
/// without overflow.
pub open spec fn summary_computable(row: BudgetSummaryRow) -> bool {
    summary_row_fault(row) is Some || {
        &&& !(summary_variance(parsed_opt(row.budget), parsed_opt(row.actuals)) matches Some(None))
        &&& !(summary_percentage(parsed_opt(row.budget), parsed_opt(row.actuals)) matches Some(None))
    }
}

/// The amount parts of an optional figure.
pub open spec fn opt_parts(a: Option<Amount>) -> Option<(i128, u32)> {
    match a {
        Some(x) => Some(x.parts()),
        None => None,
    }
}

/// True when the result is what a summary row reads as.
pub open spec fn summary_fits(r: Result<WorkshopBudgetSummary, DomainError>, row: BudgetSummaryRow) -> bool {
    match summary_row_fault(row) {
        Some(m) => r matches Err(DomainError::Internal(t)) && t@ == m,
        None => r matches Ok(s) && {
            let b = parsed_opt(row.budget);
            let a = parsed_opt(row.actuals);
            &&& s.workshop_id == uuid_parsed(row.id@).unwrap()
            &&& s.purpose == row.purpose
            &&& s.event_date == row.event_date
            &&& opt_parts(s.budget) == b
            &&& opt_parts(s.actuals) == a
            &&& opt_parts(s.variance) == match summary_variance(b, a) { Some(Some(p)) => Some(p), _ => None }
            &&& opt_parts(s.variance_percentage) == match summary_percentage(b, a) { Some(Some(p)) => Some(p), _ => None }
        },
    }
}

fn read_opt_amount(text: &Option<String>) -> (r: Result<Option<Amount>, DomainError>)
    ensures
        match *text {
            Some(t) => match decimal_parsed(t@) {
                Ok(p) => r matches Ok(Some(a)) && a.parts() == p,
                Err(_) => r matches Err(DomainError::Internal(m)) && m@ == "Invalid decimal format: "@ + t@,
            },
            None => r matches Ok(None),
        },
{
    match text {
        Some(t) => match Amount::parse(t.as_str()) {
            Ok(a) => Ok(Some(a)),
            Err(_) => Err(DomainError::Internal(join2("Invalid decimal format: ", t.as_str()))),
        },
        None => Ok(None),
    }
}

/// Reads a summary row, or gives `None` when a figure overflows.
fn summary_of(row: &BudgetSummaryRow) -> (r: Option<Result<WorkshopBudgetSummary, DomainError>>)
    ensures
        r is Some <==> summary_computable(*row),
        r matches Some(x) ==> summary_fits(x, *row),
{
    let id = match parse_uuid_text(row.id.as_str()) {
        Some(u) => u,
        None => return Some(Err(DomainError::Internal(String::from_str("Invalid UUID format in workshop id")))),
    };
    let budget = match read_opt_amount(&row.budget) {
        Ok(b) => b,
        Err(e) => return Some(Err(e)),
    };
    let actuals = match read_opt_amount(&row.actuals) {
        Ok(a) => a,
        Err(e) => return Some(Err(e)),
    };
    let (variance, variance_percentage) = match (&budget, &actuals) {
        (Some(b), Some(a)) => {
            let d = match a.checked_sub(b) {
                Some(d) => d,
                None => return None,
            };
            let pct = if b.is_zero() {
                None
            } else {
                let hundred = Amount::from_parts(100, 0).unwrap();
                let m = match d.checked_mul(&hundred) {
                    Some(m) => m,
                    None => return None,
                };
                match m.checked_div(b) {
                    Some(p) => Some(p),
                    None => return None,
                }
            };
            (Some(d), pct)
        },
        _ => (None, None),
    };
    Some(Ok(WorkshopBudgetSummary {
        workshop_id: id,
        purpose: row.purpose.clone(),
        event_date: row.event_date.clone(),
        budget,
        actuals,
        variance,
        variance_percentage,
    }))
}

/// Reads the budget summary of a workshop, where its figures do not overflow: the
/// variance is actuals minus budget, and the percentage `((actuals - budget) * 100) /
/// budget` for a non-zero budget.
pub fn budget_summary_from_row(row: &BudgetSummaryRow) -> (r: Result<WorkshopBudgetSummary, DomainError>)
    requires
        summary_computable(*row),
    ensures
        summary_fits(r, *row),
{
    summary_of(row).unwrap()
}

/// Reads the budget summary of a workshop, or gives `None` when a figure overflows.
pub fn try_budget_summary_from_row(row: &BudgetSummaryRow) -> (r: Option<Result<WorkshopBudgetSummary, DomainError>>)
    ensures
        r is Some <==> summary_computable(*row),
        r matches Some(x) ==> summary_fits(x, *row),
{
    match summary_of(row) {
        Some(_) => Some(budget_summary_from_row(row)),
        None => None,
    }
}

/// The name a location is counted under: a workshop without one counts as
/// `Unspecified`.
pub open spec fn location_label(l: Option<String>) -> Seq<char> {
    match l {
        Some(s) => s@,
        None => "Unspecified"@,
    }
}

/// The workshop counts by location name, from the counts by location, taken in order.
pub open spec fn location_map(counts: Seq<(Option<String>, i64)>) -> Map<Seq<char>, i64>
    decreases counts.len(),
{
    if counts.len() == 0 {
        Map::empty()
    } else {
        location_map(counts.drop_last()).insert(location_label(counts.last().0), counts.last().1)
    }
}

/// The workshop counts by location name; each name appears once.
pub fn location_distribution(counts: &Vec<(Option<String>, i64)>) -> (r: Vec<(String, i64)>)
    ensures
        distinct_names(r@),
        entries_map(r@) == location_map(counts@),
{
    let mut named: Vec<(String, i64)> = Vec::new();
    let mut k: usize = 0;
    while k < counts.len()
        invariant
            k <= counts@.len(),
            entries_map(named@) == location_map(counts@.take(k as int)),
        decreases counts@.len() - k,
    {
        let label = match &counts[k].0 {
            Some(s) => s.clone(),
            None => String::from_str("Unspecified"),
        };
        let count = counts[k].1;
        proof {
            assert(counts@.take(k as int + 1).drop_last() =~= counts@.take(k as int));
            assert(counts@.take(k as int + 1).last() == counts@[k as int]);
        }
        let ghost before = named@;
        named.push((label, count));
        proof {
            assert(named@.drop_last() =~= before);
        }
        k = k + 1;
    }
    proof {
        assert(counts@.take(counts@.len() as int) =~= counts@);
    }
    merge_counts(&named)
}

/// The workshop counts by project, from the counts by project, taken in order;
/// workshops without a project are not counted.
pub open spec fn project_map(counts: Seq<(Option<u128>, i64)>) -> Map<u128, i64>
    decreases counts.len(),
{
    if counts.len() == 0 {
        Map::empty()
    } else {
        let prev = project_map(counts.drop_last());
        match counts.last().0 {
            Some(p) => prev.insert(p, counts.last().1),
            None => prev,
        }
    }
}

/// The map a list of (identifier, count) entries stands for, entries taken in order.
pub open spec fn id_entries_map(v: Seq<(u128, i64)>) -> Map<u128, i64>
    decreases v.len(),
{
    if v.len() == 0 {
        Map::empty()
    } else {
        id_entries_map(v.drop_last()).insert(v.last().0, v.last().1)
    }
}

/// No identifier appears twice in a list of entries.
pub open spec fn distinct_ids(v: Seq<(u128, i64)>) -> bool {
    forall|i: int, j: int| 0 <= i < j < v.len() ==> v[i].0 != v[j].0
}

proof fn id_entries_map_update(v: Seq<(u128, i64)>, f: int, e: (u128, i64))
    requires
        distinct_ids(v),
        0 <= f < v.len(),
        v[f].0 == e.0,
    ensures
        id_entries_map(v.update(f, e)) == id_entries_map(v).insert(e.0, e.1),
    decreases v.len(),
{
    let w = v.update(f, e);
    assert(w.drop_last() =~= if f == v.len() - 1 { v.drop_last() } else { v.drop_last().update(f, e) });
    if f == v.len() - 1 {
        assert(id_entries_map(w) =~= id_entries_map(v).insert(e.0, e.1));
    } else {
        assert(distinct_ids(v.drop_last()));
        id_entries_map_update(v.drop_last(), f, e);
        assert(v.last().0 != e.0);
        assert(id_entries_map(w) =~= id_entries_map(v).insert(e.0, e.1));
    }
}

/// The workshop counts by project; each project appears once, in the place where it
/// first appears.
pub fn project_distribution(counts: &Vec<(Option<u128>, i64)>) -> (r: Vec<(u128, i64)>)
    ensures
        distinct_ids(r@),
        id_entries_map(r@) == project_map(counts@),
{
    let mut r: Vec<(u128, i64)> = Vec::new();
    let mut k: usize = 0;
    while k < counts.len()
        invariant
            k <= counts@.len(),
            distinct_ids(r@),
            id_entries_map(r@) == project_map(counts@.take(k as int)),
        decreases counts@.len() - k,
    {
        let (project, count) = counts[k];
        proof {
            assert(counts@.take(k as int + 1).drop_last() =~= counts@.take(k as int));
            assert(counts@.take(k as int + 1).last() == (project, count));
        }
        if let Some(p) = project {
            let mut found: Option<usize> = None;
            let mut i: usize = 0;
            while i < r.len()
                invariant
                    i <= r@.len(),
                    found is None ==> forall|j: int| 0 <= j < i ==> r@[j].0 != p,
                    found matches Some(f) ==> f < r@.len() && r@[f as int].0 == p,
                decreases r@.len() - i,
            {
                if found.is_none() && r[i].0 == p {
                    found = Some(i);
                }
                i = i + 1;
            }
            let ghost before = r@;
            match found {
                Some(f) => {
                    proof {
                        id_entries_map_update(before, f as int, (p, count));
                    }
                    r.set(f, (p, count));
                    proof {
                        assert(r@ == before.update(f as int, (p, count)));
                        assert forall|i: int, j: int| 0 <= i < j < r@.len() implies r@[i].0 != r@[j].0 by {
                            if i == f as int {
                                assert(before[i].0 == p);
                            }
                            if j == f as int {
                                assert(before[j].0 == p);
                            }
                        }
                    }
                },
                None => {
                    r.push((p, count));
                    proof {
                        assert(r@.drop_last() =~= before);
                    }
                },
            }
        }
        k = k + 1;
    }
    proof {
        assert(counts@.take(counts@.len() as int) =~= counts@);
    }
    r
}

/// True when a stored project identifier can be read: none, or a UUID.
pub open spec fn project_id_readable(text: Option<String>) -> bool {
    match text {
        Some(t) => uuid_parsed(t@) is Some,
        None => true,
    }
}

/// The project identifier a readable stored text stands for.
pub open spec fn project_id_of(text: Option<String>) -> Option<u128> {
    match text {
        Some(t) => uuid_parsed(t@),
        None => None,
    }
}

/// Reads the counts of workshops by project as stored, in order; the first project
/// identifier that is no UUID is an internal error naming it.
pub fn read_project_counts(rows: Vec<(Option<String>, i64)>) -> (r: Result<Vec<(Option<u128>, i64)>, DomainError>)
    ensures
        (forall|i: int| 0 <= i < rows@.len() ==> project_id_readable(#[trigger] rows@[i].0)) ==> (r matches Ok(v)
            && v@.len() == rows@.len()
            && forall|i: int| 0 <= i < rows@.len() ==> (#[trigger] v@[i]) == (project_id_of(rows@[i].0), rows@[i].1)),
        r is Err ==> exists|k: int| 0 <= k < rows@.len()
            && (forall|i: int| 0 <= i < k ==> project_id_readable(#[trigger] rows@[i].0))
            && !project_id_readable(rows@[k].0)
            && (r matches Err(DomainError::Internal(m)) && m@ == "Invalid UUID in project_id: "@ + (#[trigger] rows@[k]).0.unwrap()@),
        (exists|k: int| 0 <= k < rows@.len() && !project_id_readable(#[trigger] rows@[k].0)) ==> r is Err,
{
    let mut rest = rows;
    let mut out: Vec<(Option<u128>, i64)> = Vec::new();
    let mut i: usize = 0;
    let n = rest.len();
    while i < n
        invariant
            n == rows@.len(),
            i <= n,
            rest@ == rows@.subrange(i as int, n as int),
            out@.len() == i,
            forall|j: int| 0 <= j < i ==> project_id_readable(#[trigger] rows@[j].0),
            forall|j: int| 0 <= j < i ==> (#[trigger] out@[j]) == (project_id_of(rows@[j].0), rows@[j].1),
        decreases n - i,
    {
        let (text, count) = rest.remove(0);
        proof {
            assert((text, count) == rows@[i as int]);
            assert(rest@ =~= rows@.subrange(i as int + 1, n as int));
        }
        let id = match text {
            Some(t) => match parse_uuid_text(t.as_str()) {
                Some(u) => Some(u),
                None => return Err(DomainError::Internal(join2("Invalid UUID in project_id: ", t.as_str()))),
            },
            None => None,
        };
        out.push((id, count));
        i = i + 1;
    }
    Ok(out)
}

} // verus!
