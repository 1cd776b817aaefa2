//! The calls into `rust_xlsxwriter`, and what they do to the formats and
//! worksheets that they are given.
//!
//! A format is known by its look: the properties that the styles of the
//! sheet set. A worksheet is known by what it holds: its title, its cells,
//! its merged ranges and the widths of its columns. Nothing is known of a
//! workbook or of the bytes that it is saved as.

use crate::styles::BorderWeight;
use vstd::prelude::*;

verus! {

#[verifier::external_type_specification]
#[verifier::external_body]
pub struct ExFormat(rust_xlsxwriter::Format);

#[verifier::external_type_specification]
#[verifier::external_body]
pub struct ExFormatAlign(rust_xlsxwriter::FormatAlign);

#[verifier::external_type_specification]
#[verifier::external_body]
pub struct ExFormatBorder(rust_xlsxwriter::FormatBorder);

#[verifier::external_type_specification]
#[verifier::external_body]
pub struct ExWorkbook(rust_xlsxwriter::Workbook);

#[verifier::external_type_specification]
#[verifier::external_body]
pub struct ExWorksheet(rust_xlsxwriter::Worksheet);

#[verifier::external_type_specification]
#[verifier::external_body]
pub struct ExXlsxError(rust_xlsxwriter::XlsxError);

/// The rows that a worksheet has.
pub const ROW_LIMIT: u32 = 1_048_576;

/// The columns that a worksheet has.
pub const COLUMN_LIMIT: u16 = 16_384;

/// The most characters that a cell holds.
pub const TEXT_LIMIT: usize = 32_767;

/// The largest RGB colour; larger numbers are ignored as colours.
pub const COLOR_LIMIT: u32 = 0xFF_FFFF;

/// The largest width of a column, in characters.
pub const WIDTH_LIMIT: u32 = 255;

/// The look of a format: the properties that the styles of the sheet set.
pub struct FormatLook {
    pub bold: bool,
    pub font_name: Seq<char>,
    pub font_size: int,
    /// The horizontal alignment is `FormatAlign::Center`.
    pub centered: bool,
    /// The vertical alignment is `FormatAlign::VerticalCenter`.
    pub vertically_centered: bool,
    pub text_wrap: bool,
    /// The background colour, where it is an RGB colour.
    pub fill: Option<u32>,
    pub border_top: Option<BorderWeight>,
    pub border_bottom: Option<BorderWeight>,
    pub border_left: Option<BorderWeight>,
    pub border_right: Option<BorderWeight>,
    /// The colour of the border lines, where it is an RGB colour.
    pub border_color: Option<u32>,
}

/// How a worksheet measures the widths of its columns, in pixels: the
/// width of a digit, the padding of a cell, the largest width of a column
/// and the width of a column whose width was not set.
pub struct ColumnMetrics {
    pub digit: int,
    pub padding: int,
    pub largest: int,
    pub unset: int,
}

/// What a cell of a worksheet holds.
pub enum StoredContent {
    Blank,
    Text(Seq<char>),
    Number(int),
}

/// A cell of a worksheet: what it holds, and the look of its format.
pub struct StoredCell {
    pub content: StoredContent,
    pub look: FormatLook,
}

/// The look of a format.
pub uninterp spec fn format_look(format: rust_xlsxwriter::Format) -> FormatLook;

/// The weight of a border line: thin for `FormatBorder::Thin`, medium for
/// `FormatBorder::Medium`, none for every other kind of line.
pub uninterp spec fn border_weight(border: rust_xlsxwriter::FormatBorder) -> Option<BorderWeight>;

/// Whether an alignment is `FormatAlign::Center`.
pub uninterp spec fn aligns_center(align: rust_xlsxwriter::FormatAlign) -> bool;

/// Whether an alignment is `FormatAlign::VerticalCenter`.
pub uninterp spec fn aligns_vertical_center(align: rust_xlsxwriter::FormatAlign) -> bool;

/// The name of a worksheet.
pub uninterp spec fn sheet_title(sheet: rust_xlsxwriter::Worksheet) -> Seq<char>;

/// The cells of a worksheet, by row and column.
pub uninterp spec fn sheet_cells(sheet: rust_xlsxwriter::Worksheet) -> Map<(int, int), StoredCell>;

/// The merged ranges of a worksheet, in the order in which they were
/// merged: first row, first column, last row, last column.
pub uninterp spec fn sheet_merged_ranges(sheet: rust_xlsxwriter::Worksheet) -> Seq<
    (int, int, int, int),
>;

/// The cells that a worksheet has entered as taken by a merged range.
pub uninterp spec fn sheet_merged_cells(sheet: rust_xlsxwriter::Worksheet) -> Set<(int, int)>;

/// The width in pixels that a worksheet stores for each column whose width
/// or visibility was set.
pub uninterp spec fn sheet_column_widths(sheet: rust_xlsxwriter::Worksheet) -> Map<int, int>;

/// How a worksheet measures the widths of its columns. A new worksheet
/// measures by the plain metrics. `Worksheet::set_default_format` puts
/// others in force, and a workbook does for the worksheets that it makes
/// itself; writing to a worksheet never does.
pub uninterp spec fn sheet_metrics(sheet: rust_xlsxwriter::Worksheet) -> ColumnMetrics;

/// Whether every cell that a worksheet has entered as taken by a merged
/// range belongs to a range that it holds. A merge that fails on an
/// overlap leaves cells entered for a range that is never held.
pub uninterp spec fn sheet_merges_agree(sheet: rust_xlsxwriter::Worksheet) -> bool;

/// The look of a new format: Calibri 11, nothing else set.
pub open spec fn plain_look() -> FormatLook {
    FormatLook {
        bold: false,
        font_name: "Calibri"@,
        font_size: 11,
        centered: false,
        vertically_centered: false,
        text_wrap: false,
        fill: None,
        border_top: None,
        border_bottom: None,
        border_left: None,
        border_right: None,
        border_color: None,
    }
}

/// How a new worksheet measures the widths of its columns.
pub open spec fn plain_metrics() -> ColumnMetrics {
    ColumnMetrics { digit: 7, padding: 5, largest: 1790, unset: 64 }
}

/// Whether a worksheet is in order: it measures widths as a new worksheet
/// does, and its merged cells agree with its merged ranges.
pub open spec fn is_sound(sheet: rust_xlsxwriter::Worksheet) -> bool {
    sheet_metrics(sheet) == plain_metrics() && sheet_merges_agree(sheet)
}

/// The pixels that a worksheet stores for a column after its width was
/// set to a number of characters, from 0 to the largest width: seven per
/// character and five of padding. A width of 0 hides the column and keeps
/// the pixels that it has, or those of a column whose width was not set.
pub open spec fn stored_width(widths: Map<int, int>, col: int, width: int) -> int {
    if width == 0 {
        if widths.contains_key(col) {
            widths[col]
        } else {
            plain_metrics().unset
        }
    } else {
        plain_metrics().digit * width + plain_metrics().padding
    }
}

/// Whether a worksheet takes a name: it is not empty, has at most 31
/// characters, none of `* ? : [ ] \ /`, and no apostrophe at either end.
pub open spec fn is_sheet_name(name: Seq<char>) -> bool {
    &&& 0 < name.len() <= 31
    &&& forall|i: int|
        0 <= i < name.len() ==> {
            let c = #[trigger] name[i];
            c != '*' && c != '?' && c != ':' && c != '[' && c != ']' && c != '\\' && c != '/'
        }
    &&& name[0] != '\''
    &&& name[name.len() - 1] != '\''
}

/// Whether a worksheet has the cell of a row and a column.
pub open spec fn is_sheet_cell(row: int, col: int) -> bool {
    0 <= row < ROW_LIMIT && 0 <= col < COLUMN_LIMIT
}

/// Whether a text is short enough for a cell.
pub open spec fn is_cell_text(text: Seq<char>) -> bool {
    text.len() <= TEXT_LIMIT
}

/// What a cell holds after a text was written to it: the text, or nothing
/// for the empty text.
pub open spec fn stored_text(text: Seq<char>) -> StoredContent {
    if text.len() > 0 {
        StoredContent::Text(text)
    } else {
        StoredContent::Blank
    }
}

/// The cell that holds a text with a look.
pub open spec fn text_cell(text: Seq<char>, look: FormatLook) -> StoredCell {
    StoredCell { content: stored_text(text), look }
}

/// The cell that holds a number with a look.
pub open spec fn number_cell(number: int, look: FormatLook) -> StoredCell {
    StoredCell { content: StoredContent::Number(number), look }
}

/// Whether a written format is stored with its own look whatever the text:
/// the empty text takes the look only of a format that is not plain.
pub open spec fn keeps_look(text: Seq<char>, look: FormatLook) -> bool {
    text.len() > 0 || look != plain_look()
}

/// The cells after the run of columns `first` to `last` of a row was
/// merged: the first cell holds the text, the others nothing, all with the
/// same look.
pub open spec fn with_merged_run(
    cells: Map<(int, int), StoredCell>,
    row: int,
    first: int,
    last: int,
    text: Seq<char>,
    look: FormatLook,
) -> Map<(int, int), StoredCell> {
    Map::new(
        |at: (int, int)| cells.contains_key(at) || (at.0 == row && first <= at.1 <= last),
        |at: (int, int)|
            if at.0 == row && first <= at.1 <= last {
                text_cell(
                    if at.1 == first {
                        text
                    } else {
                        Seq::empty()
                    },
                    look,
                )
            } else {
                cells[at]
            },
    )
}

/// The cells of the columns `first` to `last` of a row.
pub open spec fn run_cells(row: int, first: int, last: int) -> Set<(int, int)> {
    Set::new(|at: (int, int)| at.0 == row && first <= at.1 <= last)
}

/// Calls `Format::new`.
///
/// Trusted: a new format has the plain look.
#[verifier::external_body]
pub(crate) fn format_new() -> (format: rust_xlsxwriter::Format)
    ensures
        format_look(format) == plain_look(),
{
    rust_xlsxwriter::Format::new()
}

/// Calls `Format::set_bold`.
///
/// Trusted: the font is bold, and nothing else of the look changes.
#[verifier::external_body]
pub(crate) fn format_set_bold(format: rust_xlsxwriter::Format) -> (set: rust_xlsxwriter::Format)
    ensures
        format_look(set) == (FormatLook { bold: true, ..format_look(format) }),
{
    format.set_bold()
}

/// Calls `Format::set_font_name`.
///
/// Trusted: the font has the name, and nothing else of the look changes.
#[verifier::external_body]
pub(crate) fn format_set_font_name(format: rust_xlsxwriter::Format, name: &str) -> (set:
    rust_xlsxwriter::Format)
    ensures
        format_look(set) == (FormatLook { font_name: name@, ..format_look(format) }),
{
    format.set_font_name(name)
}

/// Calls `Format::set_font_size`.
///
/// Trusted: the font has the size, and nothing else of the look changes.
#[verifier::external_body]
pub(crate) fn format_set_font_size(format: rust_xlsxwriter::Format, size: u32) -> (set:
    rust_xlsxwriter::Format)
    ensures
        format_look(set) == (FormatLook { font_size: size as int, ..format_look(format) }),
{
    format.set_font_size(size)
}

/// The value `FormatAlign::Center`.
#[verifier::external_body]
pub(crate) fn align_center() -> (align: rust_xlsxwriter::FormatAlign)
    ensures
        aligns_center(align),
{
    rust_xlsxwriter::FormatAlign::Center
}

/// The value `FormatAlign::VerticalCenter`.
#[verifier::external_body]
pub(crate) fn align_vertical_center() -> (align: rust_xlsxwriter::FormatAlign)
    ensures
        aligns_vertical_center(align),
{
    rust_xlsxwriter::FormatAlign::VerticalCenter
}

/// Calls `Format::set_align`.
///
/// Trusted: `Center` sets the horizontal alignment and `VerticalCenter`
/// the vertical one, and nothing else of the look changes.
#[verifier::external_body]
pub(crate) fn format_set_align(
    format: rust_xlsxwriter::Format,
    align: rust_xlsxwriter::FormatAlign,
) -> (set: rust_xlsxwriter::Format)
    ensures
        aligns_center(align) ==> format_look(set) == (FormatLook {
            centered: true,
            ..format_look(format)
        }),
        aligns_vertical_center(align) ==> format_look(set) == (FormatLook {
            vertically_centered: true,
            ..format_look(format)
        }),
{
    format.set_align(align)
}

/// Calls `Format::set_text_wrap`.
///
/// Trusted: text wraps, and nothing else of the look changes.
#[verifier::external_body]
pub(crate) fn format_set_text_wrap(format: rust_xlsxwriter::Format) -> (set:
    rust_xlsxwriter::Format)
    ensures
        format_look(set) == (FormatLook { text_wrap: true, ..format_look(format) }),
{
    format.set_text_wrap()
}

/// Calls `Format::set_background_color` with an RGB colour.
///
/// Trusted: the background has the colour, and nothing else of the look
/// changes; a number above the largest colour is ignored.
#[verifier::external_body]
pub(crate) fn format_set_background_color(format: rust_xlsxwriter::Format, rgb: u32) -> (set:
    rust_xlsxwriter::Format)
    ensures
        format_look(set) == if rgb <= COLOR_LIMIT {
            (FormatLook { fill: Some(rgb), ..format_look(format) })
        } else {
            format_look(format)
        },
{
    format.set_background_color(rgb)
}

/// The value `FormatBorder::Thin`.
#[verifier::external_body]
pub(crate) fn border_thin() -> (border: rust_xlsxwriter::FormatBorder)
    ensures
        border_weight(border) == Some(BorderWeight::Thin),
{
    rust_xlsxwriter::FormatBorder::Thin
}

/// The value `FormatBorder::Medium`.
#[verifier::external_body]
pub(crate) fn border_medium() -> (border: rust_xlsxwriter::FormatBorder)
    ensures
        border_weight(border) == Some(BorderWeight::Medium),
{
    rust_xlsxwriter::FormatBorder::Medium
}

/// Calls `Format::set_border`.
///
/// Trusted: the four border lines have the weight, and nothing else of
/// the look changes.
#[verifier::external_body]
pub(crate) fn format_set_border(
    format: rust_xlsxwriter::Format,
    border: rust_xlsxwriter::FormatBorder,
) -> (set: rust_xlsxwriter::Format)
    ensures
        format_look(set) == (FormatLook {
            border_top: border_weight(border),
            border_bottom: border_weight(border),
            border_left: border_weight(border),
            border_right: border_weight(border),
            ..format_look(format)
        }),
{
    format.set_border(border)
}

/// Calls `Format::set_border_right`.
///
/// Trusted: the right border line has the weight, and nothing else of the
/// look changes.
#[verifier::external_body]
pub(crate) fn format_set_border_right(
    format: rust_xlsxwriter::Format,
    border: rust_xlsxwriter::FormatBorder,
) -> (set: rust_xlsxwriter::Format)
    ensures
        format_look(set) == (FormatLook {
            border_right: border_weight(border),
            ..format_look(format)
        }),
{
    format.set_border_right(border)
}

/// Calls `Format::set_border_color` with an RGB colour.
///
/// Trusted: the border lines have the colour, and nothing else of the
/// look changes; a number above the largest colour is ignored.
#[verifier::external_body]
pub(crate) fn format_set_border_color(format: rust_xlsxwriter::Format, rgb: u32) -> (set:
    rust_xlsxwriter::Format)
    ensures
        format_look(set) == if rgb <= COLOR_LIMIT {
            (FormatLook { border_color: Some(rgb), ..format_look(format) })
        } else {
            format_look(format)
        },
{
    format.set_border_color(rgb)
}

/// Calls `Workbook::new`.
#[verifier::external_body]
pub(crate) fn workbook_new() -> rust_xlsxwriter::Workbook {
    rust_xlsxwriter::Workbook::new()
}

/// Calls `Workbook::push_worksheet`.
#[verifier::external_body]
pub(crate) fn workbook_push_worksheet(
    workbook: &mut rust_xlsxwriter::Workbook,
    worksheet: rust_xlsxwriter::Worksheet,
) {
    workbook.push_worksheet(worksheet);
}

/// Calls `Workbook::save_to_buffer`.
#[verifier::external_body]
pub(crate) fn workbook_save_to_buffer(workbook: &mut rust_xlsxwriter::Workbook) -> Result<
    Vec<u8>,
    rust_xlsxwriter::XlsxError,
> {
    workbook.save_to_buffer()
}

/// Calls `Worksheet::new`.
///
/// Trusted: a new worksheet has no name and holds nothing; it measures
/// widths by the plain metrics, and its merged cells agree with its
/// merged ranges, there being none of either.
#[verifier::external_body]
pub(crate) fn worksheet_new() -> (sheet: rust_xlsxwriter::Worksheet)
    ensures
        sheet_title(sheet).len() == 0,
        sheet_cells(sheet).dom().is_empty(),
        sheet_merged_ranges(sheet).len() == 0,
        sheet_merged_cells(sheet).is_empty(),
        sheet_column_widths(sheet).dom().is_empty(),
        sheet_metrics(sheet) == plain_metrics(),
        sheet_merges_agree(sheet),
{
    rust_xlsxwriter::Worksheet::new()
}

/// Calls `Worksheet::set_name`.
///
/// Trusted: the call succeeds exactly on the names that a worksheet
/// takes; then the worksheet has the name; nothing else of the worksheet
/// changes.
#[verifier::external_body]
pub(crate) fn worksheet_set_name(sheet: &mut rust_xlsxwriter::Worksheet, name: &str) -> (outcome:
    Result<(), rust_xlsxwriter::XlsxError>)
    ensures
        outcome is Ok <==> is_sheet_name(name@),
        sheet_title(*final(sheet)) == if outcome is Ok {
            name@
        } else {
            sheet_title(*old(sheet))
        },
        sheet_cells(*final(sheet)) == sheet_cells(*old(sheet)),
        sheet_merged_ranges(*final(sheet)) == sheet_merged_ranges(*old(sheet)),
        sheet_merged_cells(*final(sheet)) == sheet_merged_cells(*old(sheet)),
        sheet_column_widths(*final(sheet)) == sheet_column_widths(*old(sheet)),
        sheet_metrics(*final(sheet)) == sheet_metrics(*old(sheet)),
        sheet_merges_agree(*final(sheet)) == sheet_merges_agree(*old(sheet)),
{
    match sheet.set_name(name) {
        Ok(_) => Ok(()),
        Err(error) => Err(error),
    }
}

/// Calls `Worksheet::set_column_width`.
///
/// The width is at most the largest width of a column and the worksheet
/// measures widths by the plain metrics: the call computes the pixels of
/// the width, which overflows on larger numbers.
///
/// Trusted: the call succeeds exactly on the columns that a worksheet
/// has; then the worksheet stores the pixels of the width for the column;
/// nothing else of the worksheet changes.
#[verifier::external_body]
pub(crate) fn worksheet_set_column_width(
    sheet: &mut rust_xlsxwriter::Worksheet,
    col: u16,
    width: u32,
) -> (outcome: Result<(), rust_xlsxwriter::XlsxError>)
    requires
        width <= WIDTH_LIMIT,
        sheet_metrics(*old(sheet)) == plain_metrics(),
    ensures
        outcome is Ok <==> is_sheet_cell(0, col as int),
        sheet_column_widths(*final(sheet)) == if outcome is Ok {
            sheet_column_widths(*old(sheet)).insert(
                col as int,
                stored_width(sheet_column_widths(*old(sheet)), col as int, width as int),
            )
        } else {
            sheet_column_widths(*old(sheet))
        },
        sheet_title(*final(sheet)) == sheet_title(*old(sheet)),
        sheet_cells(*final(sheet)) == sheet_cells(*old(sheet)),
        sheet_merged_ranges(*final(sheet)) == sheet_merged_ranges(*old(sheet)),
        sheet_merged_cells(*final(sheet)) == sheet_merged_cells(*old(sheet)),
        sheet_metrics(*final(sheet)) == sheet_metrics(*old(sheet)),
        sheet_merges_agree(*final(sheet)) == sheet_merges_agree(*old(sheet)),
{
    match sheet.set_column_width(col, width) {
        Ok(_) => Ok(()),
        Err(error) => Err(error),
    }
}

/// Calls `Worksheet::write_with_format` with a string.
///
/// Trusted: the call succeeds exactly when the worksheet has the row and
/// the column and the text is not too long. Then the cell holds the text
/// (nothing, for the empty text) with the look of the format; for the
/// empty text this is claimed only of a format whose look is not the plain
/// one. No other cell changes, nor anything else of the worksheet; a call
/// that fails changes none of it.
#[verifier::external_body]
pub(crate) fn worksheet_write_text(
    sheet: &mut rust_xlsxwriter::Worksheet,
    row: u32,
    col: u16,
    text: &str,
    format: &rust_xlsxwriter::Format,
) -> (outcome: Result<(), rust_xlsxwriter::XlsxError>)
    ensures
        outcome is Ok <==> (is_sheet_cell(row as int, col as int) && is_cell_text(text@)),
        outcome is Ok && keeps_look(text@, format_look(*format)) ==> sheet_cells(*final(sheet))
            == sheet_cells(*old(sheet)).insert(
            (row as int, col as int),
            text_cell(text@, format_look(*format)),
        ),
        outcome is Err ==> sheet_cells(*final(sheet)) == sheet_cells(*old(sheet)),
        sheet_title(*final(sheet)) == sheet_title(*old(sheet)),
        sheet_merged_ranges(*final(sheet)) == sheet_merged_ranges(*old(sheet)),
        sheet_merged_cells(*final(sheet)) == sheet_merged_cells(*old(sheet)),
        sheet_column_widths(*final(sheet)) == sheet_column_widths(*old(sheet)),
        sheet_metrics(*final(sheet)) == sheet_metrics(*old(sheet)),
        sheet_merges_agree(*final(sheet)) == sheet_merges_agree(*old(sheet)),
{
    match sheet.write_with_format(row, col, text, format) {
        Ok(_) => Ok(()),
        Err(error) => Err(error),
    }
}

/// Calls `Worksheet::write_with_format` with a number.
///
/// Trusted: the call succeeds exactly when the worksheet has the row and
/// the column. Then the cell holds the number with the look of the
/// format. No other cell changes, nor anything else of the worksheet; a
/// call that fails changes none of it.
#[verifier::external_body]
pub(crate) fn worksheet_write_number(
    sheet: &mut rust_xlsxwriter::Worksheet,
    row: u32,
    col: u16,
    number: u32,
    format: &rust_xlsxwriter::Format,
) -> (outcome: Result<(), rust_xlsxwriter::XlsxError>)
    ensures
        outcome is Ok <==> is_sheet_cell(row as int, col as int),
        sheet_cells(*final(sheet)) == if outcome is Ok {
            sheet_cells(*old(sheet)).insert(
                (row as int, col as int),
                number_cell(number as int, format_look(*format)),
            )
        } else {
            sheet_cells(*old(sheet))
        },
        sheet_title(*final(sheet)) == sheet_title(*old(sheet)),
        sheet_merged_ranges(*final(sheet)) == sheet_merged_ranges(*old(sheet)),
        sheet_merged_cells(*final(sheet)) == sheet_merged_cells(*old(sheet)),
        sheet_column_widths(*final(sheet)) == sheet_column_widths(*old(sheet)),
        sheet_metrics(*final(sheet)) == sheet_metrics(*old(sheet)),
        sheet_merges_agree(*final(sheet)) == sheet_merges_agree(*old(sheet)),
{
    match sheet.write_with_format(row, col, number, format) {
        Ok(_) => Ok(()),
        Err(error) => Err(error),
    }
}

/// Calls `Worksheet::merge_range` on the cells of one row.
///
/// Trusted: the call succeeds exactly when the worksheet has the row and
/// both columns, the run has more than one cell, the text is not too long
/// and no cell of the run is taken by a merged range. Then the first cell
/// holds the text and the others nothing, with the look of the format
/// (claimed only of a format whose look is not the plain one), the range
/// is the last of the merged ranges, its cells are taken, and the merged
/// cells still agree with the merged ranges. The name, the widths and the
/// metrics never change. Of the cells and merged ranges after a call that
/// fails nothing is claimed: it may leave cells entered for a range that
/// is not held.
///
/// The merged cells agree with the merged ranges: the call looks up the
/// range of a taken cell, and panics where the worksheet holds none.
#[verifier::external_body]
pub(crate) fn worksheet_merge_range(
    sheet: &mut rust_xlsxwriter::Worksheet,
    row: u32,
    first_col: u16,
    last_col: u16,
    text: &str,
    format: &rust_xlsxwriter::Format,
) -> (outcome: Result<(), rust_xlsxwriter::XlsxError>)
    requires
        sheet_merges_agree(*old(sheet)),
    ensures
        outcome is Ok <==> {
            &&& is_sheet_cell(row as int, last_col as int)
            &&& first_col < last_col
            &&& is_cell_text(text@)
            &&& sheet_merged_cells(*old(sheet)).disjoint(
                run_cells(row as int, first_col as int, last_col as int),
            )
        },
        outcome is Ok && format_look(*format) != plain_look() ==> sheet_cells(*final(sheet))
            == with_merged_run(
            sheet_cells(*old(sheet)),
            row as int,
            first_col as int,
            last_col as int,
            text@,
            format_look(*format),
        ),
        outcome is Ok ==> sheet_merged_ranges(*final(sheet)) == sheet_merged_ranges(
            *old(sheet),
        ).push((row as int, first_col as int, row as int, last_col as int)),
        outcome is Ok ==> sheet_merged_cells(*final(sheet)) == sheet_merged_cells(
            *old(sheet),
        ).union(run_cells(row as int, first_col as int, last_col as int)),
        outcome is Ok ==> sheet_merges_agree(*final(sheet)),
        sheet_title(*final(sheet)) == sheet_title(*old(sheet)),
        sheet_column_widths(*final(sheet)) == sheet_column_widths(*old(sheet)),
        sheet_metrics(*final(sheet)) == sheet_metrics(*old(sheet)),
{
    match sheet.merge_range(row, first_col, row, last_col, text, format) {
        Ok(_) => Ok(()),
        Err(error) => Err(error),
    }
}

/// The message of an `XlsxError`, through its `Display`.
#[verifier::external_body]
pub(crate) fn error_message(error: &rust_xlsxwriter::XlsxError) -> String {
    error.to_string()
}

} // verus!
