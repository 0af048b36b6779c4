//! Rows of a table with a header line, as pairs of a column's name and the
//! row's value in that column.

use vstd::prelude::*;

verus! {

/// What `str::to_lowercase` makes of `text`: its lowercase form by Unicode's
/// rules, which depend on the text alone.
pub uninterp spec fn lowercased(text: Seq<char>) -> Seq<char>;

/// Calls `str::to_lowercase`.
#[verifier::external_body]
fn lowercase(text: &str) -> (res: String)
    ensures
        res@ == lowercased(text@),
{
    text.to_lowercase()
}

/// The smaller of two lengths.
pub open spec fn shorter(a: int, b: int) -> int {
    if a <= b {
        a
    } else {
        b
    }
}

/// Pairs each field of a row with the name of its column, the field in
/// lowercase and the name as it is. Where the row and the header line differ
/// in length, what the longer one holds beyond the shorter is left out.
pub fn lowercase_row(headers: &Vec<String>, fields: &Vec<String>) -> (row: Vec<(String, String)>)
    ensures
        row@.len() == shorter(headers@.len() as int, fields@.len() as int),
        forall|i: int|
            0 <= i < row@.len() ==> (#[trigger] row@[i]).0@ == headers@[i]@ && row@[i].1@
                == lowercased(fields@[i]@),
{
    let mut row: Vec<(String, String)> = Vec::new();
    let mut i: usize = 0;
    while i < headers.len() && i < fields.len()
        invariant
            i <= headers@.len(),
            i <= fields@.len(),
            row@.len() == i,
            forall|j: int|
                0 <= j < i ==> (#[trigger] row@[j]).0@ == headers@[j]@ && row@[j].1@ == lowercased(
                    fields@[j]@,
                ),
        decreases headers@.len() - i,
    {
        row.push((headers[i].clone(), lowercase(fields[i].as_str())));
        i += 1;
    }
    row
}

} // verus!
