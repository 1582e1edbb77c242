//! The two plain layouts the human renderings use: aligned columns, and a label-value record.
//!
//! Every cell but a row's last is padded to its column's widest; cells are separated by two
//! spaces, and each row ends in a newline.
use vstd::prelude::*;
use crate::text::{pad_right, push_padded, texts};

verus! {

/// The widest cell in column `j` among the first `n` rows.
pub open spec fn column_width(rows: Seq<Seq<Seq<char>>>, j: int, n: int) -> nat
    decreases n,
{
    if n <= 0 || n > rows.len() {
        0
    } else {
        let rest = column_width(rows, j, n - 1);
        let row = rows[n - 1];
        if 0 <= j < row.len() && row[j].len() > rest {
            row[j].len()
        } else {
            rest
        }
    }
}

/// The first `k` cells of one row, each padded but the row's last.
pub open spec fn cells_text(rows: Seq<Seq<Seq<char>>>, row: Seq<Seq<char>>, k: int) -> Seq<char>
    decreases k,
{
    if k <= 0 || k > row.len() {
        Seq::empty()
    } else {
        cells_text(rows, row, k - 1) + if k < row.len() {
            pad_right(row[k - 1], column_width(rows, k - 1, rows.len() as int)) + "  "@
        } else {
            row[k - 1]
        }
    }
}

/// The first `n` rows laid out.
pub open spec fn columns_text(rows: Seq<Seq<Seq<char>>>, n: int) -> Seq<char>
    decreases n,
{
    if n <= 0 || n > rows.len() {
        Seq::empty()
    } else {
        columns_text(rows, n - 1) + cells_text(rows, rows[n - 1], rows[n - 1].len() as int) + "\n"@
    }
}

/// Rows of cells by value.
pub open spec fn grid(rows: Seq<Vec<String>>) -> Seq<Seq<Seq<char>>> {
    rows.map_values(|r: Vec<String>| texts(r@))
}

fn column_width_of(rows: &Vec<Vec<String>>, j: usize) -> (w: usize)
    ensures
        w == column_width(grid(rows@), j as int, rows@.len() as int),
{
    let ghost g = grid(rows@);
    let mut w: usize = 0;
    let mut i: usize = 0;
    while i < rows.len()
        invariant
            i <= rows.len(),
            g == grid(rows@),
            w == column_width(g, j as int, i as int),
        decreases rows.len() - i,
    {
        let row = &rows[i];
        assert(g[i as int] == texts(row@));
        if j < row.len() {
            let len = row[j].as_str().unicode_len();
            assert(g[i as int][j as int] == row@[j as int]@);
            if len > w {
                w = len;
            }
        }
        i = i + 1;
    }
    w
}

/// Rows laid out in aligned columns; no rows, no text.
pub fn columns(rows: &Vec<Vec<String>>) -> (text: String)
    ensures
        text@ == columns_text(grid(rows@), rows@.len() as int),
{
    let ghost g = grid(rows@);
    let mut text = String::new();
    let mut i: usize = 0;
    while i < rows.len()
        invariant
            i <= rows.len(),
            g == grid(rows@),
            text@ == columns_text(g, i as int),
        decreases rows.len() - i,
    {
        let row = &rows[i];
        assert(g[i as int] == texts(row@));
        let ghost start = text@;
        let mut j: usize = 0;
        while j < row.len()
            invariant
                j <= row.len(),
                i < rows.len(),
                g == grid(rows@),
                row == &rows[i as int],
                g[i as int] == texts(row@),
                text@ == start + cells_text(g, g[i as int], j as int),
            decreases row.len() - j,
        {
            assert(g[i as int][j as int] == row@[j as int]@);
            if j + 1 < row.len() {
                let width = column_width_of(rows, j);
                push_padded(&mut text, row[j].as_str(), width);
                text.append("  ");
            } else {
                text.append(row[j].as_str());
            }
            j = j + 1;
        }
        text.append("\n");
        i = i + 1;
    }
    text
}

/// The widest label among the first `n` rows.
pub open spec fn label_width(rows: Seq<(Seq<char>, Seq<char>)>, n: int) -> nat
    decreases n,
{
    if n <= 0 || n > rows.len() {
        0
    } else {
        let rest = label_width(rows, n - 1);
        if rows[n - 1].0.len() > rest {
            rows[n - 1].0.len()
        } else {
            rest
        }
    }
}

/// The first `n` label-value rows, labels padded to the widest.
pub open spec fn record_text(rows: Seq<(Seq<char>, Seq<char>)>, n: int) -> Seq<char>
    decreases n,
{
    if n <= 0 || n > rows.len() {
        Seq::empty()
    } else {
        record_text(rows, n - 1) + pad_right(rows[n - 1].0, label_width(rows, rows.len() as int)) + "  "@
            + rows[n - 1].1 + "\n"@
    }
}

/// Label-value pairs by value.
pub open spec fn labelled(rows: Seq<(String, String)>) -> Seq<(Seq<char>, Seq<char>)> {
    rows.map_values(|p: (String, String)| (p.0@, p.1@))
}

/// One fact per line: each label padded to the widest, then its value.
pub fn record(rows: &Vec<(String, String)>) -> (text: String)
    ensures
        text@ == record_text(labelled(rows@), rows@.len() as int),
{
    let ghost r = labelled(rows@);
    let mut width: usize = 0;
    let mut i: usize = 0;
    while i < rows.len()
        invariant
            i <= rows.len(),
            r == labelled(rows@),
            width == label_width(r, i as int),
        decreases rows.len() - i,
    {
        let len = rows[i].0.as_str().unicode_len();
        if len > width {
            width = len;
        }
        i = i + 1;
    }
    let mut text = String::new();
    let mut k: usize = 0;
    while k < rows.len()
        invariant
            k <= rows.len(),
            r == labelled(rows@),
            width == label_width(r, rows@.len() as int),
            text@ == record_text(r, k as int),
        decreases rows.len() - k,
    {
        let (label, value) = &rows[k];
        push_padded(&mut text, label.as_str(), width);
        text.append("  ");
        text.append(value.as_str());
        text.append("\n");
        k = k + 1;
    }
    text
}

} // verus!
