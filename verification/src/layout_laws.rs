//! Laws of the sheet layout.

use crate::config::FragmentExportData;
use crate::layout::{
    are_headers, block_count, block_first_col, block_last_col, block_of_col, block_width,
    data_columns, day_in_block, ends_block, is_sheet_layout, MergedCell, SheetLayout,
};
use vstd::prelude::*;

verus! {

/// Every data column lies in its block, at a position within the block's
/// width.
pub proof fn lemma_column_in_its_block(weeks: int, col: int)
    requires
        weeks >= 0,
        1 <= col <= data_columns(weeks),
    ensures
        0 <= block_of_col(weeks, col) < block_count(weeks),
        block_first_col(block_of_col(weeks, col)) <= col <= block_last_col(
            weeks,
            block_of_col(weeks, col),
        ),
        0 <= day_in_block(weeks, col) < block_width(weeks, block_of_col(weeks, col)),
        ends_block(weeks, col) <==> day_in_block(weeks, col) == block_width(
            weeks,
            block_of_col(weeks, col),
        ) - 1,
{
}

/// The blocks do not overlap: a data column lies in no block but its own.
pub proof fn lemma_blocks_are_disjoint(weeks: int, block: int, col: int)
    requires
        weeks >= 0,
        0 <= block < block_count(weeks),
        block_first_col(block) <= col <= block_last_col(weeks, block),
    ensures
        1 <= col <= data_columns(weeks),
        block == block_of_col(weeks, col),
{
}

/// The blocks follow one another without gaps: the first starts at column
/// 1, each starts right after the one before, and the last ends at the
/// last data column. Lective weeks and Consultas take four columns,
/// Exámenes Finales five.
pub proof fn lemma_blocks_cover_the_columns(weeks: int, block: int)
    requires
        weeks >= 0,
        0 <= block < block_count(weeks),
    ensures
        block_first_col(0) == 1,
        block > 0 ==> block_first_col(block) == block_last_col(weeks, block - 1) + 1,
        block_last_col(weeks, weeks + 1) == data_columns(weeks),
        block_width(weeks, block) == if block == weeks + 1 {
            5int
        } else {
            4int
        },
{
}

proof fn lemma_headers_agree(
    first: Seq<MergedCell>,
    second: Seq<MergedCell>,
    weeks: int,
    labels: Seq<Seq<char>>,
)
    requires
        weeks >= 0,
        are_headers(first, weeks, labels),
        are_headers(second, weeks, labels),
    ensures
        first.len() == second.len(),
        forall|i: int| 0 <= i < first.len() ==> (#[trigger] first[i])@ == second[i]@,
{
    assert forall|i: int| 0 <= i < first.len() implies (#[trigger] first[i])@ == second[i]@ by {
        let b = i / 2;
        assert(first[2 * b]@ == second[2 * b]@);
    }
}

/// The layout is determined by what it is made from: two layouts of the
/// same balance hold the same cells, with the same contents and styles.
pub proof fn lemma_layout_is_determined(
    first: SheetLayout,
    second: SheetLayout,
    name: Seq<char>,
    weeks: int,
    labels: Seq<Seq<char>>,
    fragments: Seq<FragmentExportData>,
)
    requires
        weeks >= 0,
        is_sheet_layout(first, name, weeks, labels, fragments),
        is_sheet_layout(second, name, weeks, labels, fragments),
    ensures
        first.name@ == second.name@,
        first.last_col == second.last_col,
        first.label_column_width == second.label_column_width,
        first.data_column_width == second.data_column_width,
        first.corner@ == second.corner@,
        first.headers.len() == second.headers.len(),
        forall|i: int|
            0 <= i < first.headers.len() ==> (#[trigger] first.headers[i])@ == second.headers[i]@,
        first.day_cells.len() == second.day_cells.len(),
        forall|i: int|
            0 <= i < first.day_cells.len() ==> (#[trigger] first.day_cells[i])@
                == second.day_cells[i]@,
        first.rows.len() == second.rows.len(),
        forall|f: int|
            0 <= f < first.rows.len() ==> (#[trigger] first.rows[f]).len() == second.rows[f].len(),
        forall|f: int, c: int|
            0 <= f < first.rows.len() && 0 <= c < first.rows[f].len() ==> (
            #[trigger] first.rows[f][c])@ == second.rows[f][c]@,
{
    lemma_headers_agree(first.headers@, second.headers@, weeks, labels);
}

} // verus!
