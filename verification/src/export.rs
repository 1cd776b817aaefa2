//! Writing the sheet of a balance as a spreadsheet document.

use crate::calendar::{
    calculate_final_weeks_dates, calculate_week_dates, has_short_labels,
    lemma_shorter_calendar_in_range, ranges_of, week_end_day, week_label, week_start_day,
};
use crate::config::{BalanceExportConfig, FragmentExportData};
use crate::layout::{
    are_headers, block_header, block_title_text, build_sheet_layout, code_text, data_columns,
    fragment_code, is_sheet_layout, sheet_fits, sheet_name_text, CellContent, CellView,
    ContentView, MergedCell, MergedView, SheetCell, SheetLayout,
};
use crate::text::decimal_text;
use crate::styles::style_description;
use crate::styles::{
    style_spec, BorderWeight, CellStyle, StyleSpec, BORDER_COLOR, FONT_NAME, FONT_SIZE,
};
use crate::text::push_char;
use crate::xlsx::{
    border_weight, format_look, is_cell_text, is_sheet_cell, is_sheet_name, is_sound, number_cell,
    run_cells, sheet_cells, sheet_column_widths, sheet_merged_cells, sheet_merged_ranges,
    sheet_title, stored_width, text_cell, with_merged_run, FormatLook, StoredCell, COLOR_LIMIT,
    COLUMN_LIMIT,
};
use crate::xlsx::{
    align_center, align_vertical_center, border_medium, border_thin, error_message,
    format_new, format_set_align, format_set_background_color, format_set_bold,
    format_set_border, format_set_border_color, format_set_border_right, format_set_font_name,
    format_set_font_size, format_set_text_wrap, workbook_new, workbook_push_worksheet,
    workbook_save_to_buffer, worksheet_merge_range, worksheet_new, worksheet_set_column_width,
    worksheet_set_name, worksheet_write_number, worksheet_write_text,
};
use vstd::prelude::*;

verus! {

/// Why an export failed.
#[derive(Clone, Debug)]
pub enum ExportError {
    /// The balance has more weeks or subjects than a sheet can number.
    SheetTooLarge,
    /// The document could not be generated; the message says why.
    Document(String),
}

fn border_of(weight: BorderWeight) -> (border: rust_xlsxwriter::FormatBorder)
    ensures
        border_weight(border) == Some(weight),
{
    match weight {
        BorderWeight::Thin => border_thin(),
        BorderWeight::Medium => border_medium(),
    }
}

/// The look that a style description asks of a format: the font of the
/// sheet, with the alignment, the fill and the borders described. A fill
/// that is no colour is left out.
pub open spec fn described_look(spec: StyleSpec) -> FormatLook {
    FormatLook {
        bold: spec.bold,
        font_name: FONT_NAME@,
        font_size: FONT_SIZE as int,
        centered: spec.centered,
        vertically_centered: spec.vertically_centered,
        text_wrap: spec.text_wrap,
        fill: match spec.fill {
            Some(rgb) => if rgb <= COLOR_LIMIT {
                Some(rgb)
            } else {
                None
            },
            None => None,
        },
        border_top: Some(spec.border),
        border_bottom: Some(spec.border),
        border_left: Some(spec.border),
        border_right: Some(spec.border_right),
        border_color: if spec.border_colored {
            Some(BORDER_COLOR)
        } else {
            None
        },
    }
}

/// The look of the cells of a style.
pub open spec fn style_look(style: CellStyle) -> FormatLook {
    described_look(style_description(style))
}

/// Builds the format that a style describes: the font of the sheet with
/// the alignment, fill and borders of the description.
fn build_format(spec: StyleSpec) -> (format: rust_xlsxwriter::Format)
    ensures
        format_look(format) == described_look(spec),
{
    let mut format = format_new();
    if spec.bold {
        format = format_set_bold(format);
    }
    format = format_set_font_name(format, FONT_NAME);
    format = format_set_font_size(format, FONT_SIZE);
    if spec.centered {
        format = format_set_align(format, align_center());
    }
    if spec.vertically_centered {
        format = format_set_align(format, align_vertical_center());
    }
    if spec.text_wrap {
        format = format_set_text_wrap(format);
    }
    match spec.fill {
        Some(rgb) => {
            format = format_set_background_color(format, rgb);
        },
        None => {},
    }
    format = format_set_border(format, border_of(spec.border));
    format = format_set_border_right(format, border_of(spec.border_right));
    if spec.border_colored {
        format = format_set_border_color(format, BORDER_COLOR);
    }
    format
}

/// The formats of the sheet, one per style.
pub struct ExcelStyles {
    header_bold: rust_xlsxwriter::Format,
    header_week: rust_xlsxwriter::Format,
    header_day: rust_xlsxwriter::Format,
    header_day_week_end: rust_xlsxwriter::Format,
    cell_activity: rust_xlsxwriter::Format,
    cell_activity_week_end: rust_xlsxwriter::Format,
    cell_activity_critical: rust_xlsxwriter::Format,
    cell_activity_critical_week_end: rust_xlsxwriter::Format,
    cell_subject_name: rust_xlsxwriter::Format,
}

impl ExcelStyles {
    /// The format that is held for a style.
    pub closed spec fn format_for(self, style: CellStyle) -> rust_xlsxwriter::Format {
        match style {
            CellStyle::HeaderBold => self.header_bold,
            CellStyle::HeaderWeek => self.header_week,
            CellStyle::HeaderDay => self.header_day,
            CellStyle::HeaderDayWeekEnd => self.header_day_week_end,
            CellStyle::CellActivity => self.cell_activity,
            CellStyle::CellActivityWeekEnd => self.cell_activity_week_end,
            CellStyle::CellActivityCritical => self.cell_activity_critical,
            CellStyle::CellActivityCriticalWeekEnd => self.cell_activity_critical_week_end,
            CellStyle::CellSubjectName => self.cell_subject_name,
        }
    }

    /// The format of every style has the look of the style.
    #[verifier::type_invariant]
    spec fn well_styled(self) -> bool {
        forall|style: CellStyle| format_look(#[trigger] self.format_for(style)) == style_look(style)
    }

    /// Builds the format of every style from its description.
    pub fn new() -> (styles: ExcelStyles)
        ensures
            forall|style: CellStyle|
                format_look(#[trigger] styles.format_for(style)) == style_look(style),
    {
        ExcelStyles {
            header_bold: build_format(style_spec(CellStyle::HeaderBold)),
            header_week: build_format(style_spec(CellStyle::HeaderWeek)),
            header_day: build_format(style_spec(CellStyle::HeaderDay)),
            header_day_week_end: build_format(style_spec(CellStyle::HeaderDayWeekEnd)),
            cell_activity: build_format(style_spec(CellStyle::CellActivity)),
            cell_activity_week_end: build_format(style_spec(CellStyle::CellActivityWeekEnd)),
            cell_activity_critical: build_format(style_spec(CellStyle::CellActivityCritical)),
            cell_activity_critical_week_end: build_format(
                style_spec(CellStyle::CellActivityCriticalWeekEnd),
            ),
            cell_subject_name: build_format(style_spec(CellStyle::CellSubjectName)),
        }
    }

    /// The format of a style.
    fn format_of(&self, style: CellStyle) -> (format: &rust_xlsxwriter::Format)
        ensures
            *format == self.format_for(style),
            format_look(*format) == style_look(style),
    {
        proof {
            use_type_invariant(self);
            assert(format_look(self.format_for(style)) == style_look(style));
        }
        match style {
            CellStyle::HeaderBold => &self.header_bold,
            CellStyle::HeaderWeek => &self.header_week,
            CellStyle::HeaderDay => &self.header_day,
            CellStyle::HeaderDayWeekEnd => &self.header_day_week_end,
            CellStyle::CellActivity => &self.cell_activity,
            CellStyle::CellActivityWeekEnd => &self.cell_activity_week_end,
            CellStyle::CellActivityCritical => &self.cell_activity_critical,
            CellStyle::CellActivityCriticalWeekEnd => &self.cell_activity_critical_week_end,
            CellStyle::CellSubjectName => &self.cell_subject_name,
        }
    }
}

/// What a worksheet holds: its name, its cells, its merged ranges with the
/// cells that they take, and the width in pixels of the columns whose
/// width was set.
pub struct SheetView {
    pub title: Seq<char>,
    pub cells: Map<(int, int), StoredCell>,
    pub merged_ranges: Seq<(int, int, int, int)>,
    pub merged_cells: Set<(int, int)>,
    pub column_widths: Map<int, int>,
}

/// What a worksheet holds.
pub open spec fn sheet_view(sheet: rust_xlsxwriter::Worksheet) -> SheetView {
    SheetView {
        title: sheet_title(sheet),
        cells: sheet_cells(sheet),
        merged_ranges: sheet_merged_ranges(sheet),
        merged_cells: sheet_merged_cells(sheet),
        column_widths: sheet_column_widths(sheet),
    }
}

/// What a worksheet stores for a cell of the layout: its text (nothing,
/// where the text is empty) or its number, with the look of its style.
pub open spec fn stored_cell(cell: CellView) -> StoredCell {
    match cell.content {
        ContentView::Text(text) => text_cell(text, style_look(cell.style)),
        ContentView::Number(number) => number_cell(number, style_look(cell.style)),
    }
}

/// Whether a worksheet takes a cell of the layout: it has the row and the
/// column, and the text is not too long.
pub open spec fn is_writable(cell: CellView) -> bool {
    &&& is_sheet_cell(cell.row, cell.col)
    &&& match cell.content {
        ContentView::Text(text) => is_cell_text(text),
        ContentView::Number(_) => true,
    }
}

/// A worksheet after a cell was written: the cell is stored at its row
/// and column, in place of what was there.
pub open spec fn with_cell(view: SheetView, cell: CellView) -> SheetView {
    SheetView { cells: view.cells.insert((cell.row, cell.col), stored_cell(cell)), ..view }
}

/// A worksheet after cells were written one after the other.
pub open spec fn with_cells(view: SheetView, cells: Seq<SheetCell>) -> SheetView
    decreases cells.len(),
{
    if cells.len() == 0 {
        view
    } else {
        with_cell(with_cells(view, cells.drop_last()), cells.last()@)
    }
}

/// Whether a worksheet takes every cell of a list.
pub open spec fn are_writable(cells: Seq<SheetCell>) -> bool {
    forall|i: int| 0 <= i < cells.len() ==> is_writable(#[trigger] cells[i]@)
}

/// Whether a worksheet in which the cells `taken` are merged takes a
/// header: it has the row and both columns, the header spans more than
/// one cell, its text is not too long, and none of its cells is taken.
pub open spec fn is_mergeable(taken: Set<(int, int)>, header: MergedView) -> bool {
    &&& is_sheet_cell(header.row, header.last_col)
    &&& 0 <= header.first_col < header.last_col
    &&& is_cell_text(header.text)
    &&& taken.disjoint(run_cells(header.row, header.first_col, header.last_col))
}

/// A worksheet after a header was merged: the first cell of its run holds
/// the text and the others nothing, with the look of its style; the run is
/// the last of the merged ranges, and its cells are taken.
pub open spec fn with_header(view: SheetView, header: MergedView) -> SheetView {
    SheetView {
        cells: with_merged_run(
            view.cells,
            header.row,
            header.first_col,
            header.last_col,
            header.text,
            style_look(header.style),
        ),
        merged_ranges: view.merged_ranges.push(
            (header.row, header.first_col, header.row, header.last_col),
        ),
        merged_cells: view.merged_cells.union(
            run_cells(header.row, header.first_col, header.last_col),
        ),
        ..view
    }
}

/// A worksheet after headers were merged one after the other.
pub open spec fn with_headers(view: SheetView, headers: Seq<MergedCell>) -> SheetView
    decreases headers.len(),
{
    if headers.len() == 0 {
        view
    } else {
        with_header(with_headers(view, headers.drop_last()), headers.last()@)
    }
}

/// A worksheet that holds nothing but merged ranges that take the cells
/// `taken`.
pub open spec fn only_merged(taken: Set<(int, int)>) -> SheetView {
    SheetView {
        title: Seq::empty(),
        cells: Map::empty(),
        merged_ranges: Seq::empty(),
        merged_cells: taken,
        column_widths: Map::empty(),
    }
}

/// Whether a worksheet in which the cells `taken` are merged takes the
/// headers one after the other.
pub open spec fn are_mergeable(taken: Set<(int, int)>, headers: Seq<MergedCell>) -> bool
    decreases headers.len(),
{
    if headers.len() == 0 {
        true
    } else {
        &&& are_mergeable(taken, headers.drop_last())
        &&& is_mergeable(
            with_headers(only_merged(taken), headers.drop_last()).merged_cells,
            headers.last()@,
        )
    }
}

/// A worksheet after the widths of the columns 0 to `last_col` were set:
/// column 0 has the pixels of the width of the subject names, the others
/// those of the width of the data.
pub open spec fn with_widths(
    view: SheetView,
    last_col: int,
    label_width: int,
    data_width: int,
) -> SheetView {
    SheetView {
        column_widths: Map::new(
            |col: int| view.column_widths.contains_key(col) || 0 <= col <= last_col,
            |col: int|
                if col == 0 {
                    stored_width(view.column_widths, col, label_width)
                } else if 1 <= col <= last_col {
                    stored_width(view.column_widths, col, data_width)
                } else {
                    view.column_widths[col]
                },
        ),
        ..view
    }
}

/// A new worksheet: it has no name and holds nothing.
pub open spec fn blank_view() -> SheetView {
    only_merged(Set::empty())
}

/// A worksheet after rows of cells were written one after the other.
pub open spec fn with_rows(view: SheetView, rows: Seq<Vec<SheetCell>>) -> SheetView
    decreases rows.len(),
{
    if rows.len() == 0 {
        view
    } else {
        with_cells(with_rows(view, rows.drop_last()), rows.last()@)
    }
}

/// Whether a worksheet takes every cell of every row.
pub open spec fn are_rows_writable(rows: Seq<Vec<SheetCell>>) -> bool {
    forall|f: int| 0 <= f < rows.len() ==> are_writable(#[trigger] rows[f]@)
}

/// A worksheet after a layout was written to it: it has the name of the
/// layout; the widths of its columns are set; then the corner, the
/// headers, the day numbers and the rows of the subjects are written, in
/// this order.
pub open spec fn written(view: SheetView, layout: SheetLayout) -> SheetView {
    with_rows(
        with_cells(
            with_headers(
                with_cell(
                    with_widths(
                        SheetView { title: layout.name@, ..view },
                        layout.last_col as int,
                        layout.label_column_width as int,
                        layout.data_column_width as int,
                    ),
                    layout.corner@,
                ),
                layout.headers@,
            ),
            layout.day_cells@,
        ),
        layout.rows@,
    )
}

/// Whether a worksheet in which the cells `taken` are merged takes a
/// layout: its name, its columns, its headers and every cell.
pub open spec fn takes_layout(taken: Set<(int, int)>, layout: SheetLayout) -> bool {
    &&& is_sheet_name(layout.name@)
    &&& layout.last_col < COLUMN_LIMIT
    &&& is_writable(layout.corner@)
    &&& are_mergeable(taken, layout.headers@)
    &&& are_writable(layout.day_cells@)
    &&& are_rows_writable(layout.rows@)
}

/// Writes a cell in the format of its style.
fn write_cell(
    sheet: &mut rust_xlsxwriter::Worksheet,
    cell: &SheetCell,
    styles: &ExcelStyles,
) -> (outcome: Result<(), rust_xlsxwriter::XlsxError>)
    ensures
        outcome is Ok <==> is_writable(cell@),
        sheet_view(*final(sheet)) == if outcome is Ok {
            with_cell(sheet_view(*old(sheet)), cell@)
        } else {
            sheet_view(*old(sheet))
        },
        is_sound(*final(sheet)) == is_sound(*old(sheet)),
{
    let format = styles.format_of(cell.style);
    match &cell.content {
        CellContent::Text(text) => worksheet_write_text(
            sheet,
            cell.row,
            cell.col,
            text.as_str(),
            format,
        ),
        CellContent::Number(number) => worksheet_write_number(
            sheet,
            cell.row,
            cell.col,
            *number,
            format,
        ),
    }
}

/// Writes cells one after the other, up to the first that the worksheet
/// refuses.
fn write_cells(
    sheet: &mut rust_xlsxwriter::Worksheet,
    cells: &Vec<SheetCell>,
    styles: &ExcelStyles,
) -> (outcome: Result<(), rust_xlsxwriter::XlsxError>)
    ensures
        outcome is Ok <==> are_writable(cells@),
        outcome is Ok ==> sheet_view(*final(sheet)) == with_cells(sheet_view(*old(sheet)), cells@),
        sheet_view(*final(sheet)).merged_cells == sheet_view(*old(sheet)).merged_cells,
        is_sound(*final(sheet)) == is_sound(*old(sheet)),
{
    let mut i: usize = 0;
    while i < cells.len()
        invariant
            i <= cells.len(),
            are_writable(cells@.take(i as int)),
            sheet_view(*sheet) == with_cells(sheet_view(*old(sheet)), cells@.take(i as int)),
            sheet_view(*sheet).merged_cells == sheet_view(*old(sheet)).merged_cells,
            is_sound(*sheet) == is_sound(*old(sheet)),
        decreases cells.len() - i,
    {
        proof {
            assert(cells@.take(i as int + 1).drop_last() =~= cells@.take(i as int));
        }
        match write_cell(sheet, &cells[i], styles) {
            Ok(_) => {},
            Err(error) => {
                return Err(error);
            },
        }
        i += 1;
    }
    proof {
        assert(cells@.take(i as int) =~= cells@);
    }
    Ok(())
}

/// Merges headers one after the other, up to the first that the worksheet
/// refuses. A worksheet that refused a header is no longer in order.
fn write_headers(
    sheet: &mut rust_xlsxwriter::Worksheet,
    headers: &Vec<MergedCell>,
    styles: &ExcelStyles,
) -> (outcome: Result<(), rust_xlsxwriter::XlsxError>)
    requires
        is_sound(*old(sheet)),
    ensures
        outcome is Ok <==> are_mergeable(sheet_view(*old(sheet)).merged_cells, headers@),
        outcome is Ok ==> sheet_view(*final(sheet)) == with_headers(
            sheet_view(*old(sheet)),
            headers@,
        ),
        outcome is Ok ==> is_sound(*final(sheet)),
{
    let mut i: usize = 0;
    while i < headers.len()
        invariant
            i <= headers.len(),
            are_mergeable(sheet_view(*old(sheet)).merged_cells, headers@.take(i as int)),
            sheet_view(*sheet) == with_headers(sheet_view(*old(sheet)), headers@.take(i as int)),
            is_sound(*sheet),
        decreases headers.len() - i,
    {
        let header = &headers[i];
        proof {
            assert(headers@.take(i as int + 1).drop_last() =~= headers@.take(i as int));
            lemma_merged_cells_of_headers(
                sheet_view(*old(sheet)),
                sheet_view(*old(sheet)).merged_cells,
                headers@.take(i as int),
            );
        }
        match worksheet_merge_range(
            sheet,
            header.row,
            header.first_col,
            header.last_col,
            header.text.as_str(),
            styles.format_of(header.style),
        ) {
            Ok(_) => {},
            Err(error) => {
                proof {
                    if are_mergeable(sheet_view(*old(sheet)).merged_cells, headers@) {
                        lemma_mergeable_prefix(
                            sheet_view(*old(sheet)).merged_cells,
                            headers@,
                            i as int + 1,
                        );
                    }
                }
                return Err(error);
            },
        }
        i += 1;
    }
    proof {
        assert(headers@.take(i as int) =~= headers@);
    }
    Ok(())
}

/// The cells that merged headers take do not depend on what else the
/// worksheet holds.
proof fn lemma_merged_cells_of_headers(
    view: SheetView,
    taken: Set<(int, int)>,
    headers: Seq<MergedCell>,
)
    requires
        view.merged_cells == taken,
    ensures
        with_headers(view, headers).merged_cells == with_headers(
            only_merged(taken),
            headers,
        ).merged_cells,
    decreases headers.len(),
{
    if headers.len() > 0 {
        lemma_merged_cells_of_headers(view, taken, headers.drop_last());
    }
}

/// Headers that a worksheet takes one after the other: it takes the
/// first of them too.
proof fn lemma_mergeable_prefix(taken: Set<(int, int)>, headers: Seq<MergedCell>, count: int)
    requires
        0 <= count <= headers.len(),
        are_mergeable(taken, headers),
    ensures
        are_mergeable(taken, headers.take(count)),
    decreases headers.len(),
{
    if count < headers.len() {
        lemma_mergeable_prefix(taken, headers.drop_last(), count);
        assert(headers.drop_last().take(count) =~= headers.take(count));
    } else {
        assert(headers.take(count) =~= headers);
    }
}

/// Sets the widths of the columns: of the first as the layout has it for
/// the subject names, of the others as it has it for the data.
fn set_column_widths(sheet: &mut rust_xlsxwriter::Worksheet, layout: &SheetLayout) -> (outcome:
    Result<(), rust_xlsxwriter::XlsxError>)
    requires
        is_sound(*old(sheet)),
    ensures
        outcome is Ok <==> layout.last_col < COLUMN_LIMIT,
        outcome is Ok ==> sheet_view(*final(sheet)) == with_widths(
            sheet_view(*old(sheet)),
            layout.last_col as int,
            layout.label_column_width as int,
            layout.data_column_width as int,
        ),
        sheet_view(*final(sheet)) == (SheetView {
            column_widths: sheet_view(*final(sheet)).column_widths,
            ..sheet_view(*old(sheet))
        }),
        is_sound(*final(sheet)),
{
    let last_col: u16 = layout.last_col;
    let ghost before = sheet_view(*sheet);
    let ghost label = layout.label_column_width as int;
    let ghost data = layout.data_column_width as int;
    match worksheet_set_column_width(sheet, 0, layout.label_column_width as u32) {
        Ok(_) => {},
        Err(error) => {
            return Err(error);
        },
    }
    proof {
        assert(sheet_view(*sheet).column_widths =~= with_widths(
            before,
            0,
            label,
            data,
        ).column_widths);
    }
    let mut col: u16 = 0;
    while col < last_col
        invariant
            col <= last_col,
            last_col == layout.last_col,
            col < COLUMN_LIMIT,
            before == sheet_view(*old(sheet)),
            label == layout.label_column_width,
            data == layout.data_column_width,
            is_sound(*sheet),
            sheet_view(*sheet) == with_widths(before, col as int, label, data),
        decreases last_col - col,
    {
        col += 1;
        match worksheet_set_column_width(sheet, col, layout.data_column_width as u32) {
            Ok(_) => {},
            Err(error) => {
                return Err(error);
            },
        }
        proof {
            assert(sheet_view(*sheet).column_widths =~= with_widths(
                before,
                col as int,
                label,
                data,
            ).column_widths);
        }
    }
    Ok(())
}

/// Creates the worksheet of a laid-out sheet: a new worksheet with the
/// name of the layout, the column widths, the header rows and one row per
/// subject. Fails at the first call that the worksheet refuses; it
/// refuses none exactly when a new worksheet takes the layout.
pub fn create_data_sheet(layout: &SheetLayout, styles: &ExcelStyles) -> (outcome: Result<
    rust_xlsxwriter::Worksheet,
    rust_xlsxwriter::XlsxError,
>)
    ensures
        outcome is Ok <==> takes_layout(Set::empty(), *layout),
        outcome matches Ok(sheet) ==> sheet_view(sheet) == written(blank_view(), *layout),
{
    let mut sheet = worksheet_new();
    proof {
        assert(sheet_view(sheet).cells =~= blank_view().cells);
        assert(sheet_view(sheet).merged_ranges =~= blank_view().merged_ranges);
        assert(sheet_view(sheet).column_widths =~= blank_view().column_widths);
    }
    match worksheet_set_name(&mut sheet, layout.name.as_str()) {
        Ok(_) => {},
        Err(error) => {
            return Err(error);
        },
    }
    match set_column_widths(&mut sheet, layout) {
        Ok(_) => {},
        Err(error) => {
            return Err(error);
        },
    }
    match write_cell(&mut sheet, &layout.corner, styles) {
        Ok(_) => {},
        Err(error) => {
            return Err(error);
        },
    }
    match write_headers(&mut sheet, &layout.headers, styles) {
        Ok(_) => {},
        Err(error) => {
            return Err(error);
        },
    }
    match write_cells(&mut sheet, &layout.day_cells, styles) {
        Ok(_) => {},
        Err(error) => {
            return Err(error);
        },
    }
    let ghost headed = sheet_view(sheet);
    let mut f: usize = 0;
    while f < layout.rows.len()
        invariant
            f <= layout.rows.len(),
            are_rows_writable(layout.rows@.take(f as int)),
            sheet_view(sheet) == with_rows(headed, layout.rows@.take(f as int)),
        decreases layout.rows.len() - f,
    {
        proof {
            assert(layout.rows@.take(f as int + 1).drop_last() =~= layout.rows@.take(f as int));
        }
        match write_cells(&mut sheet, &layout.rows[f], styles) {
            Ok(_) => {},
            Err(error) => {
                return Err(error);
            },
        }
        f += 1;
    }
    proof {
        assert(layout.rows@.take(f as int) =~= layout.rows@);
    }
    Ok(sheet)
}

/// The most lective weeks whose columns a worksheet has.
pub const MAX_SHEET_WEEKS: i32 = 4093;

/// The most subjects whose rows a worksheet has.
pub const MAX_SHEET_FRAGMENTS: u32 = 1_048_573;

/// Whether a header takes a cell.
pub open spec fn header_takes(header: MergedCell, at: (int, int)) -> bool {
    run_cells(header@.row, header@.first_col, header@.last_col).contains(at)
}

proof fn lemma_header_runs(taken: Set<(int, int)>, headers: Seq<MergedCell>, count: int)
    requires
        0 <= count <= headers.len(),
    ensures
        forall|at: (int, int)| #[trigger]
            with_headers(only_merged(taken), headers.take(count)).merged_cells.contains(at)
                ==> taken.contains(at) || exists|j: int|
                0 <= j < count && header_takes(#[trigger] headers[j], at),
    decreases count,
{
    if count > 0 {
        lemma_header_runs(taken, headers, count - 1);
        assert(headers.take(count).drop_last() =~= headers.take(count - 1));
        assert forall|at: (int, int)| #[trigger]
            with_headers(only_merged(taken), headers.take(count)).merged_cells.contains(
                at,
            ) implies taken.contains(at) || exists|j: int|
            0 <= j < count && header_takes(#[trigger] headers[j], at) by {
            if with_headers(only_merged(taken), headers.take(count - 1)).merged_cells.contains(at)
                && !taken.contains(at) {
                let j = choose|j: int|
                    0 <= j < count - 1 && header_takes(#[trigger] headers[j], at);
                assert(0 <= j < count && header_takes(headers[j], at));
            }
        }
    }
}

proof fn lemma_decimal_text_is_short(n: nat)
    ensures
        decimal_text(n).len() <= n + 1,
    decreases n,
{
    if n >= 10 {
        lemma_decimal_text_is_short(n / 10);
    }
}

proof fn lemma_title_is_short(weeks: int, block: int)
    requires
        0 <= weeks <= MAX_SHEET_WEEKS,
        0 <= block < weeks + 2,
    ensures
        is_cell_text(block_title_text(weeks, block)),
{
    reveal_strlit("Semana ");
    reveal_strlit("Consultas");
    reveal_strlit("Exámenes Finales");
    lemma_decimal_text_is_short((block + 1) as nat);
}

proof fn lemma_headers_are_mergeable(
    taken: Set<(int, int)>,
    headers: Seq<MergedCell>,
    weeks: int,
    labels: Seq<Seq<char>>,
    count: int,
)
    requires
        0 <= weeks <= MAX_SHEET_WEEKS,
        are_headers(headers, weeks, labels),
        forall|b: int| 0 <= b < weeks + 2 ==> is_cell_text(#[trigger] labels[b]),
        forall|at: (int, int)| taken.contains(at) ==> at.0 >= 2,
        0 <= count <= headers.len(),
    ensures
        are_mergeable(taken, headers.take(count)),
    decreases count,
{
    if count > 0 {
        lemma_headers_are_mergeable(taken, headers, weeks, labels, count - 1);
        lemma_header_runs(taken, headers, count - 1);
        assert(headers.take(count).drop_last() =~= headers.take(count - 1));
        let block = (count - 1) / 2;
        let header = headers[count - 1]@;
        assert(headers[2 * block]@ == block_header(weeks, block, 0, labels[block]));
        lemma_title_is_short(weeks, block);
        let before = with_headers(only_merged(taken), headers.take(count - 1)).merged_cells;
        assert forall|at: (int, int)| before.contains(at) implies !run_cells(
            header.row,
            header.first_col,
            header.last_col,
        ).contains(at) by {
            if !taken.contains(at) {
                let j = choose|j: int| 0 <= j < count - 1 && header_takes(#[trigger] headers[j], at);
                let other = j / 2;
                assert(headers[2 * other]@ == block_header(weeks, other, 0, labels[other]));
            }
        }
    }
}

/// A worksheet takes the layout of a balance that is within its limits:
/// at most 4093 lective weeks and 1,048,573 subjects, a name that a
/// worksheet takes, labels, subject names and codes that are not too long,
/// and no merged range in the two header rows.
pub proof fn lemma_sheet_layout_is_taken(
    layout: SheetLayout,
    name: Seq<char>,
    weeks: int,
    labels: Seq<Seq<char>>,
    fragments: Seq<FragmentExportData>,
    taken: Set<(int, int)>,
)
    requires
        is_sheet_layout(layout, name, weeks, labels, fragments),
        0 <= weeks <= MAX_SHEET_WEEKS,
        fragments.len() <= MAX_SHEET_FRAGMENTS,
        is_sheet_name(name),
        forall|b: int| 0 <= b < weeks + 2 ==> is_cell_text(#[trigger] labels[b]),
        forall|f: int| 0 <= f < fragments.len() ==> is_cell_text((#[trigger] fragments[f]).name@),
        forall|f: int, col: int|
            0 <= f < fragments.len() && 1 <= col <= data_columns(weeks) ==> is_cell_text(
                code_text(#[trigger] fragment_code(fragments[f], weeks, col)),
            ),
        forall|at: (int, int)| taken.contains(at) ==> at.0 >= 2,
    ensures
        takes_layout(taken, layout),
{
    reveal_strlit("Asignaturas");
    lemma_headers_are_mergeable(
        taken,
        layout.headers@,
        weeks,
        labels,
        layout.headers@.len() as int,
    );
    assert(layout.headers@.take(layout.headers@.len() as int) =~= layout.headers@);
}

/// A layout that a new worksheet takes is that of a balance within the
/// limits of a worksheet: at most 4093 lective weeks and 1,048,573
/// subjects, a name that a worksheet takes, and subject names and codes
/// that are not too long.
pub proof fn lemma_taken_layout_is_within_limits(
    layout: SheetLayout,
    name: Seq<char>,
    weeks: int,
    labels: Seq<Seq<char>>,
    fragments: Seq<FragmentExportData>,
)
    requires
        is_sheet_layout(layout, name, weeks, labels, fragments),
        takes_layout(Set::empty(), layout),
    ensures
        weeks <= MAX_SHEET_WEEKS,
        fragments.len() <= MAX_SHEET_FRAGMENTS,
        is_sheet_name(name),
        forall|f: int| 0 <= f < fragments.len() ==> is_cell_text((#[trigger] fragments[f]).name@),
        forall|f: int, col: int|
            0 <= f < fragments.len() && 1 <= col <= data_columns(weeks) ==> is_cell_text(
                code_text(#[trigger] fragment_code(fragments[f], weeks, col)),
            ),
{
    if fragments.len() > MAX_SHEET_FRAGMENTS {
        let f = MAX_SHEET_FRAGMENTS as int;
        assert(is_writable(layout.rows[f]@[0]@));
    }
    assert forall|f: int| 0 <= f < fragments.len() implies is_cell_text(
        (#[trigger] fragments[f]).name@,
    ) by {
        assert(is_writable(layout.rows[f]@[0]@));
    }
    assert forall|f: int, col: int|
        0 <= f < fragments.len() && 1 <= col <= data_columns(weeks) implies is_cell_text(
        code_text(#[trigger] fragment_code(fragments[f], weeks, col)),
    ) by {
        assert(is_writable(layout.rows[f]@[col]@));
    }
}

/// Writing cells leaves the name of a worksheet and the widths of its
/// columns as they are.
proof fn lemma_cells_keep_widths(view: SheetView, cells: Seq<SheetCell>)
    ensures
        with_cells(view, cells).title == view.title,
        with_cells(view, cells).column_widths == view.column_widths,
    decreases cells.len(),
{
    if cells.len() > 0 {
        lemma_cells_keep_widths(view, cells.drop_last());
    }
}

/// Merging headers leaves the name of a worksheet and the widths of its
/// columns as they are.
proof fn lemma_headers_keep_widths(view: SheetView, headers: Seq<MergedCell>)
    ensures
        with_headers(view, headers).title == view.title,
        with_headers(view, headers).column_widths == view.column_widths,
    decreases headers.len(),
{
    if headers.len() > 0 {
        lemma_headers_keep_widths(view, headers.drop_last());
    }
}

/// Writing rows leaves the name of a worksheet and the widths of its
/// columns as they are.
proof fn lemma_rows_keep_widths(view: SheetView, rows: Seq<Vec<SheetCell>>)
    ensures
        with_rows(view, rows).title == view.title,
        with_rows(view, rows).column_widths == view.column_widths,
    decreases rows.len(),
{
    if rows.len() > 0 {
        lemma_rows_keep_widths(view, rows.drop_last());
        lemma_cells_keep_widths(with_rows(view, rows.drop_last()), rows.last()@);
    }
}

/// The pixels that a worksheet stores for a column that was made `width`
/// characters wide, for a width from 1 to the largest.
pub open spec fn column_pixels(width: int) -> int {
    stored_width(Map::empty(), 0, width)
}

/// The new worksheet to which the layout of a balance of `weeks` lective
/// weeks was written has the name of the layout, and a width for the
/// columns of the layout and for no other: column 0, of the subject
/// names, is 33 characters wide, and each of the `4 * weeks + 9` data
/// columns is 5 characters wide.
pub proof fn lemma_written_sheet_widths(
    layout: SheetLayout,
    name: Seq<char>,
    weeks: int,
    labels: Seq<Seq<char>>,
    fragments: Seq<FragmentExportData>,
)
    requires
        is_sheet_layout(layout, name, weeks, labels, fragments),
    ensures
        written(blank_view(), layout).title == name,
        written(blank_view(), layout).column_widths.dom() == Set::new(
            |col: int| 0 <= col <= 4 * weeks + 9,
        ),
        written(blank_view(), layout).column_widths[0] == column_pixels(33),
        forall|col: int|
            1 <= col <= 4 * weeks + 9 ==> #[trigger] written(
                blank_view(),
                layout,
            ).column_widths[col] == column_pixels(5),
        column_pixels(33) == 236,
        column_pixels(5) == 40,
{
    let named = SheetView { title: layout.name@, ..blank_view() };
    let sized = with_widths(
        named,
        layout.last_col as int,
        layout.label_column_width as int,
        layout.data_column_width as int,
    );
    let cornered = with_cell(sized, layout.corner@);
    let headed = with_headers(cornered, layout.headers@);
    let numbered = with_cells(headed, layout.day_cells@);
    lemma_headers_keep_widths(cornered, layout.headers@);
    lemma_cells_keep_widths(headed, layout.day_cells@);
    lemma_rows_keep_widths(numbered, layout.rows@);
}

/// What an export returns for each outcome of generating the document:
/// the bytes, or the failure with its message.
pub fn finish_export(
    outcome: Result<Vec<u8>, rust_xlsxwriter::XlsxError>,
) -> (result: Result<Vec<u8>, ExportError>)
    ensures
        match outcome {
            Ok(bytes) => result == Ok::<Vec<u8>, ExportError>(bytes),
            Err(_) => result is Err && result->Err_0 is Document,
        },
{
    match outcome {
        Ok(bytes) => Ok(bytes),
        Err(error) => Err(ExportError::Document(error_message(&error))),
    }
}

/// Generates the document of a laid-out sheet in memory: writes the
/// layout to a new worksheet and saves a workbook that holds it. Fails
/// when the worksheet does not take the layout, and when the document
/// cannot be saved.
pub fn render_layout(layout: &SheetLayout) -> (result: Result<Vec<u8>, ExportError>)
    ensures
        result is Err ==> result->Err_0 is Document,
        !takes_layout(Set::empty(), *layout) ==> result is Err,
{
    let styles = ExcelStyles::new();
    let sheet = match create_data_sheet(layout, &styles) {
        Ok(sheet) => sheet,
        Err(error) => {
            return finish_export(Err(error));
        },
    };
    let mut workbook = workbook_new();
    workbook_push_worksheet(&mut workbook, sheet);
    finish_export(workbook_save_to_buffer(&mut workbook))
}

/// The date-range labels of the blocks of a calendar: of each lective
/// week, then of the two weeks that follow.
pub open spec fn calendar_labels(start: int, ranges: Seq<(int, int)>, weeks: int) -> Seq<
    Seq<char>,
> {
    Seq::new(
        (weeks + 2) as nat,
        |b: int|
            week_label(
                week_start_day(start, ranges, b as nat),
                week_end_day(start, ranges, b as nat),
            ),
    )
}

/// Whether a balance is within the limits of a worksheet: it has at most
/// 4093 lective weeks and 1,048,573 subjects, the name of its sheet is
/// one that a worksheet takes, and no subject name or code is too long
/// for a cell.
pub open spec fn balance_fits_worksheet(config: BalanceExportConfig) -> bool {
    &&& config.weeks <= MAX_SHEET_WEEKS
    &&& config.fragments.len() <= MAX_SHEET_FRAGMENTS
    &&& is_sheet_name(sheet_name_text(config.academic_year@))
    &&& forall|f: int|
        0 <= f < config.fragments.len() ==> is_cell_text((#[trigger] config.fragments[f]).name@)
    &&& forall|f: int, col: int|
        0 <= f < config.fragments.len() && 1 <= col <= data_columns(config.weeks as int)
            ==> is_cell_text(
            code_text(#[trigger] fragment_code(config.fragments[f], config.weeks as int, col)),
        )
}

/// Plans the sheet of a balance: builds its calendar of lective weeks and
/// trailing blocks, and lays the sheet out with the labels of that
/// calendar. None when the balance has more weeks or subjects than a
/// sheet can number. A new worksheet takes the planned sheet exactly when
/// the balance is within the limits of a worksheet.
pub fn plan_balance_sheet(config: &BalanceExportConfig) -> (layout: Option<SheetLayout>)
    requires
        config.exportable(),
    ensures
        layout is Some <==> sheet_fits(config.weeks as int, config.fragments.len() as int),
        layout matches Some(sheet) ==> is_sheet_layout(
            sheet,
            sheet_name_text(config.academic_year@),
            config.weeks as int,
            calendar_labels(
                config.start_date@,
                ranges_of(config.non_academic_periods@),
                config.weeks as int,
            ),
            config.fragments@,
        ),
        layout matches Some(sheet) ==> (takes_layout(Set::empty(), sheet)
            <==> balance_fits_worksheet(*config)),
{
    proof {
        lemma_shorter_calendar_in_range(
            config.start_date@,
            ranges_of(config.non_academic_periods@),
            config.weeks as int,
            config.weeks + 2,
        );
    }
    let week_dates = calculate_week_dates(
        config.start_date,
        config.weeks,
        config.non_academic_periods.as_slice(),
    );
    let final_week_dates = calculate_final_weeks_dates(
        config.start_date,
        config.weeks,
        config.non_academic_periods.as_slice(),
    );
    let layout = build_sheet_layout(config, &week_dates, &final_week_dates);
    proof {
        if layout is Some {
            let sheet = layout->0;
            let name = sheet_name_text(config.academic_year@);
            let labels = calendar_labels(
                config.start_date@,
                ranges_of(config.non_academic_periods@),
                config.weeks as int,
            );
            assert forall|b: int| 0 <= b < config.weeks + 2 implies is_cell_text(
                #[trigger] labels[b],
            ) by {
                if b < config.weeks {
                    assert(labels[b] == week_dates[b].display_range@);
                } else {
                    assert(labels[b] == final_week_dates[b - config.weeks].display_range@);
                }
            }
            if balance_fits_worksheet(*config) {
                lemma_sheet_layout_is_taken(
                    sheet,
                    name,
                    config.weeks as int,
                    labels,
                    config.fragments@,
                    Set::empty(),
                );
            }
            if takes_layout(Set::empty(), sheet) {
                lemma_taken_layout_is_within_limits(
                    sheet,
                    name,
                    config.weeks as int,
                    labels,
                    config.fragments@,
                );
            }
        }
    }
    layout
}

/// Generate the spreadsheet of a balance: one sheet with the calendar of
/// lective weeks and trailing blocks in its header rows and one row per
/// subject, as `plan_balance_sheet` lays it out. Fails when the balance
/// is not within the limits of a worksheet: with more than 4093 lective
/// weeks, with a sheet name that a worksheet refuses, with a subject name
/// or a code that is too long for a cell.
pub fn generate_balance_excel(config: &BalanceExportConfig) -> (result: Result<
    Vec<u8>,
    ExportError,
>)
    requires
        config.exportable(),
    ensures
        !sheet_fits(config.weeks as int, config.fragments.len() as int) ==> result is Err
            && result->Err_0 is SheetTooLarge,
        sheet_fits(config.weeks as int, config.fragments.len() as int) && result is Err
            ==> result->Err_0 is Document,
        !balance_fits_worksheet(*config) ==> result is Err,
        config.weeks > MAX_SHEET_WEEKS ==> result is Err,
        !is_sheet_name(sheet_name_text(config.academic_year@)) ==> result is Err,
{
    match plan_balance_sheet(config) {
        Some(layout) => render_layout(&layout),
        None => Err(ExportError::SheetTooLarge),
    }
}

/// An exported balance: the document and the name of its file.
#[derive(Clone, Debug)]
pub struct ExportedBalance {
    pub bytes: Vec<u8>,
    pub filename: String,
}

/// Exports a balance: generates its document and names its file. Either
/// both are returned or the export fails as a whole, as generating the
/// document fails.
pub fn export_balance(config: &BalanceExportConfig) -> (result: Result<ExportedBalance, ExportError>)
    requires
        config.exportable(),
    ensures
        !sheet_fits(config.weeks as int, config.fragments.len() as int) ==> result is Err
            && result->Err_0 is SheetTooLarge,
        sheet_fits(config.weeks as int, config.fragments.len() as int) && result is Err
            ==> result->Err_0 is Document,
        !balance_fits_worksheet(*config) ==> result is Err,
        config.weeks > MAX_SHEET_WEEKS ==> result is Err,
        !is_sheet_name(sheet_name_text(config.academic_year@)) ==> result is Err,
        result matches Ok(exported) ==> exported.filename@ == export_filename_text(
            config.academic_year_text@,
            config.period@,
            config.academic_year@,
        ),
{
    match generate_balance_excel(config) {
        Ok(bytes) => Ok(ExportedBalance { bytes, filename: export_filename(config) }),
        Err(error) => Err(error),
    }
}

/// `text` with every `from` replaced by `to`.
pub open spec fn replaced(text: Seq<char>, from: char, to: char) -> Seq<char> {
    Seq::new(
        text.len(),
        |i: int|
            if text[i] == from {
                to
            } else {
                text[i]
            },
    )
}

/// The file name of an export:
/// `Balance_de_carga_Diurno_<academic_year_text>_<period>_<academic_year>.xlsx`,
/// with the hyphens of the year text and all spaces replaced by
/// underscores.
pub open spec fn export_filename_text(
    academic_year_text: Seq<char>,
    period: Seq<char>,
    academic_year: Seq<char>,
) -> Seq<char> {
    replaced(
        "Balance_de_carga_Diurno_"@ + replaced(academic_year_text, '-', '_') + seq!['_'] + period
            + seq!['_'] + academic_year + ".xlsx"@,
        ' ',
        '_',
    )
}

/// Appends `piece` with every `from` replaced by `to`.
fn push_replaced(text: &mut String, piece: &str, from: char, to: char)
    ensures
        final(text)@ == old(text)@ + replaced(piece@, from, to),
{
    let n: usize = piece.unicode_len();
    let mut i: usize = 0;
    while i < n
        invariant
            n == piece@.len(),
            i <= n,
            text@ == old(text)@ + replaced(piece@, from, to).take(i as int),
        decreases n - i,
    {
        let c: char = piece.get_char(i);
        if c == from {
            push_char(text, to);
        } else {
            push_char(text, c);
        }
        i += 1;
    }
}

/// The file name under which the export of a balance is saved.
pub fn export_filename(config: &BalanceExportConfig) -> (name: String)
    ensures
        name@ == export_filename_text(
            config.academic_year_text@,
            config.period@,
            config.academic_year@,
        ),
{
    let mut raw = String::from_str("Balance_de_carga_Diurno_");
    push_replaced(&mut raw, config.academic_year_text.as_str(), '-', '_');
    push_char(&mut raw, '_');
    raw.append(config.period.as_str());
    push_char(&mut raw, '_');
    raw.append(config.academic_year.as_str());
    raw.append(".xlsx");
    let mut name = String::new();
    push_replaced(&mut name, raw.as_str(), ' ', '_');
    name
}

} // verus!
