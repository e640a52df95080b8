//! The two-column table of output samples handed to a tabular exporter.
use vstd::prelude::*;

verus! {

pub open spec fn min(a: int, b: int) -> int {
    if a <= b { a } else { b }
}

/// The table of `(time, value)` rows, already formatted: a header row
/// `("x_out", "y_out")`, then one row per index below the shorter of the two
/// columns, pairing the entries at that index, in order.
pub fn table_rows(times: &Vec<String>, values: &Vec<String>) -> (rows: Vec<(String, String)>)
    ensures
        rows@.len() == 1 + min(times@.len() as int, values@.len() as int),
        rows@[0].0@ == "x_out"@,
        rows@[0].1@ == "y_out"@,
        forall|i: int|
            0 <= i < rows@.len() - 1 ==> rows@[i + 1].0@ == times@[i]@ && rows@[i + 1].1@
                == values@[i]@,
{
    let n: usize = if times.len() <= values.len() { times.len() } else { values.len() };
    let mut rows: Vec<(String, String)> = Vec::new();
    rows.push(("x_out".to_owned(), "y_out".to_owned()));
    let mut i: usize = 0;
    while i < n
        invariant
            n == min(times@.len() as int, values@.len() as int),
            i <= n,
            rows@.len() == 1 + i,
            rows@[0].0@ == "x_out"@,
            rows@[0].1@ == "y_out"@,
            forall|k: int|
                0 <= k < i ==> rows@[k + 1].0@ == times@[k]@ && rows@[k + 1].1@ == values@[k]@,
        decreases n - i,
    {
        rows.push((times[i].clone(), values[i].clone()));
        i = i + 1;
    }
    rows
}

} // verus!
