//! Display widths of the grid's columns: for each column, the widest of its
//! cells as the terminal shows them.
use vstd::prelude::*;
use crate::record::{dex_rows, mm_rows, DexVolumeTask, MmVolumeTask, FIELD_COUNT};

verus! {

/// How many terminal columns `unicode-width` gives the text.
pub uninterp spec fn display_width(s: Seq<char>) -> nat;

/// Relies on `UnicodeWidthStr::width` of `unicode-width`: the width depends
/// on the text alone, and empty text is zero columns wide.
#[verifier::external_body]
fn text_width(s: &str) -> (r: usize)
    ensures
        r as nat == display_width(s@),
        s@.len() == 0 ==> r == 0,
{
    unicode_width::UnicodeWidthStr::width(s)
}

/// The largest of `widths`, or zero when there is none.
pub open spec fn widest_of(widths: Seq<usize>) -> nat
    decreases widths.len(),
{
    if widths.len() == 0 {
        0
    } else {
        let rest = widest_of(widths.drop_last());
        let last = widths.last() as nat;
        if last > rest {
            last
        } else {
            rest
        }
    }
}

/// The widest cell of column `col` over `rows` (record views).
pub open spec fn column_width(rows: Seq<Seq<Seq<char>>>, col: int) -> nat
    decreases rows.len(),
{
    if rows.len() == 0 {
        0
    } else {
        let rest = column_width(rows.drop_last(), col);
        let last = display_width(rows.last()[col]);
        if last > rest {
            last
        } else {
            rest
        }
    }
}

/// The column width as the layout takes it: the low 16 bits.
pub open spec fn layout_width(w: nat) -> u16 {
    (w % 65536) as u16
}

/// The largest of `widths`, or zero for none.
pub fn widest(widths: &Vec<usize>) -> (r: usize)
    ensures
        r as nat == widest_of(widths@),
{
    let mut best: usize = 0;
    let mut i: usize = 0;
    while i < widths.len()
        invariant
            i <= widths.len(),
            best as nat == widest_of(widths@.subrange(0, i as int)),
        decreases widths.len() - i,
    {
        assert(widths@.subrange(0, i as int + 1).drop_last() =~= widths@.subrange(0, i as int));
        if widths[i] > best {
            best = widths[i];
        }
        i = i + 1;
    }
    assert(widths@.subrange(0, widths.len() as int) =~= widths@);
    best
}

proof fn lemma_widest_is_column_width(widths: Seq<usize>, rows: Seq<Seq<Seq<char>>>, col: int)
    requires
        widths.len() == rows.len(),
        forall|i: int| 0 <= i < rows.len() ==> widths[i] as nat == display_width(rows[i][col]),
    ensures
        widest_of(widths) == column_width(rows, col),
    decreases rows.len(),
{
    if rows.len() > 0 {
        lemma_widest_is_column_width(widths.drop_last(), rows.drop_last(), col);
    }
}

fn truncate_width(w: usize) -> (r: u16)
    ensures
        r == layout_width(w as nat),
{
    (w % 65536) as u16
}

/// The layout width of every column of a primary dataset.
pub fn constraint_mm_len_calculator(items: &Vec<MmVolumeTask>) -> (r: Vec<u16>)
    ensures
        r@.len() == FIELD_COUNT,
        forall|c: int| 0 <= c < FIELD_COUNT ==> r@[c] == layout_width(column_width(mm_rows(items@), c)),
{
    let mut r: Vec<u16> = Vec::new();
    let mut col: usize = 0;
    while col < FIELD_COUNT
        invariant
            col <= FIELD_COUNT,
            r@.len() == col,
            forall|c: int| 0 <= c < col ==> r@[c] == layout_width(column_width(mm_rows(items@), c)),
        decreases FIELD_COUNT - col,
    {
        let mut widths: Vec<usize> = Vec::new();
        let mut i: usize = 0;
        while i < items.len()
            invariant
                col < FIELD_COUNT,
                i <= items.len(),
                widths@.len() == i,
                forall|j: int| 0 <= j < i ==> widths@[j] as nat == display_width(#[trigger] mm_rows(items@)[j][col as int]),
            decreases items.len() - i,
        {
            let w = text_width(items[i].field(col).as_str());
            widths.push(w);
            i = i + 1;
        }
        proof {
            lemma_widest_is_column_width(widths@, mm_rows(items@), col as int);
        }
        r.push(truncate_width(widest(&widths)));
        col = col + 1;
    }
    r
}

/// The layout width of every column of a secondary dataset.
pub fn constraint_dex_len_calculator(items: &Vec<DexVolumeTask>) -> (r: Vec<u16>)
    ensures
        r@.len() == FIELD_COUNT,
        forall|c: int| 0 <= c < FIELD_COUNT ==> r@[c] == layout_width(column_width(dex_rows(items@), c)),
{
    let mut r: Vec<u16> = Vec::new();
    let mut col: usize = 0;
    while col < FIELD_COUNT
        invariant
            col <= FIELD_COUNT,
            r@.len() == col,
            forall|c: int| 0 <= c < col ==> r@[c] == layout_width(column_width(dex_rows(items@), c)),
        decreases FIELD_COUNT - col,
    {
        let mut widths: Vec<usize> = Vec::new();
        let mut i: usize = 0;
        while i < items.len()
            invariant
                col < FIELD_COUNT,
                i <= items.len(),
                widths@.len() == i,
                forall|j: int| 0 <= j < i ==> widths@[j] as nat == display_width(#[trigger] dex_rows(items@)[j][col as int]),
            decreases items.len() - i,
        {
            let w = text_width(items[i].field(col).as_str());
            widths.push(w);
            i = i + 1;
        }
        proof {
            lemma_widest_is_column_width(widths@, dex_rows(items@), col as int);
        }
        r.push(truncate_width(widest(&widths)));
        col = col + 1;
    }
    r
}

} // verus!
