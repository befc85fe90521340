//! Rows of the trajectory record.
//!
//! One row is written per accepted integration step: the time, then each
//! entry of the state, separated by a comma and a blank, and a line feed at
//! the end.  There is no header.

use vstd::prelude::*;
use vstd::string::*;

verus! {

/// What stands between two cells of a row.
pub open spec fn separator() -> Seq<char> {
    seq![',', ' ']
}

/// The cells of a row behind the time, each with the separator before it.
pub open spec fn cells_text(cells: Seq<Seq<char>>) -> Seq<char>
    decreases cells.len(),
{
    if cells.len() == 0 {
        Seq::empty()
    } else {
        cells_text(cells.drop_last()) + separator() + cells.last()
    }
}

/// One row of the record.
pub open spec fn row_text(time: Seq<char>, cells: Seq<Seq<char>>) -> Seq<char> {
    time + cells_text(cells) + seq!['\n']
}

/// The texts of a list of strings.
pub open spec fn texts(cells: Seq<String>) -> Seq<Seq<char>> {
    Seq::new(cells.len(), |i: int| cells[i]@)
}

/// A row is as long as its cells together, two more for each separator
/// and one more for the line feed.
pub proof fn lemma_cells_len(cells: Seq<Seq<char>>)
    ensures
        cells_text(cells).len() == cells.fold_left(0nat, |n: nat, c: Seq<char>| n + c.len()) + 2
            * cells.len(),
    decreases cells.len(),
{
    if cells.len() > 0 {
        lemma_cells_len(cells.drop_last());
    }
}

/// Writes one row of the record from the time and the state entries, each
/// already put into text.
pub fn format_row(time: &str, cells: &Vec<String>) -> (row: String)
    ensures
        row@ == row_text(time@, texts(cells@)),
{
    let mut row = String::new();
    row.append(time);
    let ghost all = texts(cells@);
    let mut i: usize = 0;
    while i < cells.len()
        invariant
            i <= cells.len(),
            all == texts(cells@),
            row@ == time@ + cells_text(all.subrange(0, i as int)),
        decreases cells.len() - i,
    {
        proof {
            reveal_strlit(", ");
            assert(", "@ =~= separator());
            let next = all.subrange(0, i + 1);
            assert(next.drop_last() =~= all.subrange(0, i as int));
            assert(next.last() == cells[i as int]@);
        }
        row.append(", ");
        row.append(cells[i].as_str());
        i += 1;
        assert(row@ =~= time@ + cells_text(all.subrange(0, i as int)));
    }
    proof {
        reveal_strlit("\n");
        assert("\n"@ =~= seq!['\n']);
        assert(all.subrange(0, cells.len() as int) =~= all);
    }
    row.append("\n");
    assert(row@ =~= row_text(time@, all));
    row
}

} // verus!
