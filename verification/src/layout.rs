//! The layout of the sheet: which cell holds what, in which style.
//!
//! Column 0 holds the subject names. After it come the blocks: one of four
//! columns per lective week, then Consultas with four columns and Exámenes
//! Finales with five. Row 0 holds the date-range label of each block, row 1
//! its name, row 2 the day numbers, and each row from 3 on one subject.

use crate::calendar::WeekDateInfo;
use crate::codec::codes_view;
use crate::config::{BalanceExportConfig, FragmentExportData};
use crate::styles::{data_style, day_style, style_for_code, CellStyle};
use crate::text::{decimal_text, push_decimal};
use vstd::prelude::*;

verus! {

/// Width of the subject-name column: wide.
pub const LABEL_COLUMN_WIDTH: u8 = 33;

/// Width of every data column: narrow.
pub const DATA_COLUMN_WIDTH: u8 = 5;

/// The most lective weeks whose columns can still be numbered.
pub const MAX_LAYOUT_WEEKS: i32 = 16381;

/// The most subjects whose rows can still be numbered.
pub const MAX_LAYOUT_FRAGMENTS: usize = 0xFFFF_FFFC;

/// What a cell holds.
#[derive(Clone, Debug)]
pub enum CellContent {
    Text(String),
    Number(u32),
}

/// What a cell holds, as a value of the model.
pub enum ContentView {
    Text(Seq<char>),
    Number(int),
}

impl View for CellContent {
    type V = ContentView;

    open spec fn view(&self) -> ContentView {
        match *self {
            CellContent::Text(text) => ContentView::Text(text@),
            CellContent::Number(n) => ContentView::Number(n as int),
        }
    }
}

/// One cell of the sheet.
#[derive(Clone, Debug)]
pub struct SheetCell {
    pub row: u32,
    pub col: u16,
    pub content: CellContent,
    pub style: CellStyle,
}

/// One cell of the sheet, as a value of the model.
pub struct CellView {
    pub row: int,
    pub col: int,
    pub content: ContentView,
    pub style: CellStyle,
}

impl View for SheetCell {
    type V = CellView;

    open spec fn view(&self) -> CellView {
        CellView {
            row: self.row as int,
            col: self.col as int,
            content: self.content@,
            style: self.style,
        }
    }
}

/// A run of cells of one row merged into one.
#[derive(Clone, Debug)]
pub struct MergedCell {
    pub row: u32,
    pub first_col: u16,
    pub last_col: u16,
    pub text: String,
    pub style: CellStyle,
}

/// A merged run of cells, as a value of the model.
pub struct MergedView {
    pub row: int,
    pub first_col: int,
    pub last_col: int,
    pub text: Seq<char>,
    pub style: CellStyle,
}

impl View for MergedCell {
    type V = MergedView;

    open spec fn view(&self) -> MergedView {
        MergedView {
            row: self.row as int,
            first_col: self.first_col as int,
            last_col: self.last_col as int,
            text: self.text@,
            style: self.style,
        }
    }
}

/// Everything that is written to the sheet.
#[derive(Clone, Debug)]
pub struct SheetLayout {
    /// Name of the sheet.
    pub name: String,
    /// Number of the last column; the data columns are 1 to `last_col`.
    pub last_col: u16,
    /// Width of column 0, which holds the subject names, in characters.
    pub label_column_width: u8,
    /// Width of each data column, in characters.
    pub data_column_width: u8,
    /// The top-left cell.
    pub corner: SheetCell,
    /// Two merged cells per block: its date-range label, then its name.
    pub headers: Vec<MergedCell>,
    /// The day-number cells of row 2, one per data column.
    pub day_cells: Vec<SheetCell>,
    /// One row per subject: its name, then one cell per data column.
    pub rows: Vec<Vec<SheetCell>>,
}

/// Number of blocks: the lective weeks and the two trailing blocks.
pub open spec fn block_count(weeks: int) -> int {
    weeks + 2
}

/// First column of a block.
pub open spec fn block_first_col(block: int) -> int {
    1 + 4 * block
}

/// Columns of a block: five for Exámenes Finales, four for the others.
pub open spec fn block_width(weeks: int, block: int) -> int {
    if block == weeks + 1 {
        5
    } else {
        4
    }
}

/// Last column of a block.
pub open spec fn block_last_col(weeks: int, block: int) -> int {
    block_first_col(block) + block_width(weeks, block) - 1
}

/// Number of data columns.
pub open spec fn data_columns(weeks: int) -> int {
    4 * weeks + 9
}

/// The block that a data column belongs to.
pub open spec fn block_of_col(weeks: int, col: int) -> int {
    if col > 4 * (weeks + 1) {
        weeks + 1
    } else {
        (col - 1) / 4
    }
}

/// Position of a data column inside its block, from 0.
pub open spec fn day_in_block(weeks: int, col: int) -> int {
    col - block_first_col(block_of_col(weeks, col))
}

/// Whether a data column is the last of its block.
pub open spec fn ends_block(weeks: int, col: int) -> bool {
    col == block_last_col(weeks, block_of_col(weeks, col))
}

/// Name of a block: "Semana k" for lective week k (from 1), then
/// "Consultas" and "Exámenes Finales".
pub open spec fn block_title_text(weeks: int, block: int) -> Seq<char> {
    if block < weeks {
        "Semana "@ + decimal_text((block + 1) as nat)
    } else if block == weeks {
        "Consultas"@
    } else {
        "Exámenes Finales"@
    }
}

/// The date-range labels of all blocks: those of the lective weeks, then
/// those of the trailing blocks.
pub open spec fn block_labels(weeks: Seq<WeekDateInfo>, final_weeks: Seq<WeekDateInfo>) -> Seq<
    Seq<char>,
> {
    Seq::new(
        weeks.len() + final_weeks.len(),
        |b: int|
            if b < weeks.len() {
                weeks[b].display_range@
            } else {
                final_weeks[b - weeks.len()].display_range@
            },
    )
}

/// The code that a fragment holds for a data column, if any.
pub open spec fn fragment_code(fragment: FragmentExportData, weeks: int, col: int) -> Option<
    Seq<char>,
> {
    let block = block_of_col(weeks, col);
    let day = day_in_block(weeks, col);
    if block < weeks {
        codes_view(fragment.weekly_data[block]@)[day]
    } else if block == weeks {
        codes_view(fragment.consultas_data@)[day]
    } else {
        codes_view(fragment.examenes_data@)[day]
    }
}

/// The text of a data cell: the code, or nothing.
pub open spec fn code_text(code: Option<Seq<char>>) -> Seq<char> {
    match code {
        Some(text) => text,
        None => Seq::empty(),
    }
}

/// The merged cell of row `row` over the columns of a block.
pub open spec fn block_header(weeks: int, block: int, row: int, text: Seq<char>) -> MergedView {
    MergedView {
        row,
        first_col: block_first_col(block),
        last_col: block_last_col(weeks, block),
        text,
        style: CellStyle::HeaderWeek,
    }
}

/// The day-number cell of a data column: the 1-based position of the
/// column inside its block.
pub open spec fn day_cell(weeks: int, col: int) -> CellView {
    CellView {
        row: 2,
        col,
        content: ContentView::Number(day_in_block(weeks, col) + 1),
        style: day_style(ends_block(weeks, col)),
    }
}

/// The cell of a subject's row in a data column.
pub open spec fn data_cell(fragment: FragmentExportData, weeks: int, row: int, col: int) -> CellView {
    CellView {
        row,
        col,
        content: ContentView::Text(code_text(fragment_code(fragment, weeks, col))),
        style: data_style(fragment_code(fragment, weeks, col), ends_block(weeks, col)),
    }
}

/// The cell that holds a subject's name.
pub open spec fn name_cell(fragment: FragmentExportData, row: int) -> CellView {
    CellView {
        row,
        col: 0,
        content: ContentView::Text(fragment.name@),
        style: CellStyle::CellSubjectName,
    }
}

/// The top-left cell.
pub open spec fn corner_cell() -> CellView {
    CellView {
        row: 0,
        col: 0,
        content: ContentView::Text("Asignaturas"@),
        style: CellStyle::HeaderBold,
    }
}

/// `cells` is the row of a subject: its name in column 0, then one cell
/// per data column.
pub open spec fn is_fragment_row(
    cells: Seq<SheetCell>,
    fragment: FragmentExportData,
    weeks: int,
    row: int,
) -> bool {
    &&& cells.len() == data_columns(weeks) + 1
    &&& cells[0]@ == name_cell(fragment, row)
    &&& forall|col: int|
        1 <= col <= data_columns(weeks) ==> (#[trigger] cells[col])@ == data_cell(
            fragment,
            weeks,
            row,
            col,
        )
}

/// `cells` are the two header cells of every block, block after block:
/// the date-range label in row 0, the block name in row 1.
pub open spec fn are_headers(cells: Seq<MergedCell>, weeks: int, labels: Seq<Seq<char>>) -> bool {
    &&& cells.len() == 2 * block_count(weeks)
    &&& forall|b: int|
        0 <= b < block_count(weeks) ==> {
            &&& (#[trigger] cells[2 * b])@ == block_header(weeks, b, 0, labels[b])
            &&& cells[2 * b + 1]@ == block_header(weeks, b, 1, block_title_text(weeks, b))
        }
}

/// `cells` are the day-number cells of the data columns, in order.
pub open spec fn are_day_cells(cells: Seq<SheetCell>, weeks: int) -> bool {
    &&& cells.len() == data_columns(weeks)
    &&& forall|i: int| 0 <= i < data_columns(weeks) ==> (#[trigger] cells[i])@ == day_cell(weeks, i + 1)
}

/// `layout` is the sheet of a balance of `weeks` lective weeks with the
/// given sheet name, block labels and subjects.
pub open spec fn is_sheet_layout(
    layout: SheetLayout,
    name: Seq<char>,
    weeks: int,
    labels: Seq<Seq<char>>,
    fragments: Seq<FragmentExportData>,
) -> bool {
    &&& layout.name@ == name
    &&& layout.last_col == data_columns(weeks)
    &&& layout.label_column_width == LABEL_COLUMN_WIDTH
    &&& layout.data_column_width == DATA_COLUMN_WIDTH
    &&& layout.corner@ == corner_cell()
    &&& are_headers(layout.headers@, weeks, labels)
    &&& are_day_cells(layout.day_cells@, weeks)
    &&& layout.rows.len() == fragments.len()
    &&& forall|f: int|
        0 <= f < fragments.len() ==> is_fragment_row(
            (#[trigger] layout.rows[f])@,
            fragments[f],
            weeks,
            3 + f,
        )
}

/// Whether a balance of `weeks` weeks and `fragments` subjects can be laid
/// out: its columns and rows must be numbered with 16 and 32 bits.
pub open spec fn sheet_fits(weeks: int, fragments: int) -> bool {
    weeks <= MAX_LAYOUT_WEEKS && fragments <= MAX_LAYOUT_FRAGMENTS
}

/// The name of a block.
pub fn block_title(weeks: i32, block: i32) -> (title: String)
    requires
        0 <= block <= weeks + 1,
    ensures
        title@ == block_title_text(weeks as int, block as int),
{
    if block < weeks {
        let mut title = String::from_str("Semana ");
        let number: u32 = (block + 1) as u32;
        push_decimal(&mut title, number);
        title
    } else if block == weeks {
        String::from_str("Consultas")
    } else {
        String::from_str("Exámenes Finales")
    }
}

/// The first column of a block.
fn first_col_of(weeks: i32, block: i32) -> (col: u16)
    requires
        0 <= block <= weeks + 1,
        weeks <= MAX_LAYOUT_WEEKS,
    ensures
        col == block_first_col(block as int),
{
    (1 + 4 * block) as u16
}

/// The last column of a block.
fn last_col_of(weeks: i32, block: i32) -> (col: u16)
    requires
        0 <= block <= weeks + 1,
        weeks <= MAX_LAYOUT_WEEKS,
    ensures
        col == block_last_col(weeks as int, block as int),
{
    if block == weeks + 1 {
        (1 + 4 * block + 4) as u16
    } else {
        (1 + 4 * block + 3) as u16
    }
}

/// The header cells of all blocks.
pub fn header_cells(
    weeks: i32,
    week_dates: &Vec<WeekDateInfo>,
    final_week_dates: &Vec<WeekDateInfo>,
) -> (cells: Vec<MergedCell>)
    requires
        0 <= weeks <= MAX_LAYOUT_WEEKS,
        week_dates.len() == weeks,
        final_week_dates.len() == 2,
    ensures
        are_headers(cells@, weeks as int, block_labels(week_dates@, final_week_dates@)),
{
    let ghost labels = block_labels(week_dates@, final_week_dates@);
    let mut cells: Vec<MergedCell> = Vec::new();
    let mut block: i32 = 0;
    while block < weeks + 2
        invariant
            0 <= block <= weeks + 2,
            0 <= weeks <= MAX_LAYOUT_WEEKS,
            week_dates.len() == weeks,
            final_week_dates.len() == 2,
            labels == block_labels(week_dates@, final_week_dates@),
            cells.len() == 2 * block,
            forall|b: int|
                0 <= b < block ==> {
                    &&& (#[trigger] cells[2 * b])@ == block_header(weeks as int, b, 0, labels[b])
                    &&& cells[2 * b + 1]@ == block_header(
                        weeks as int,
                        b,
                        1,
                        block_title_text(weeks as int, b),
                    )
                },
        decreases weeks + 2 - block,
    {
        let first_col: u16 = first_col_of(weeks, block);
        let last_col: u16 = last_col_of(weeks, block);
        let label: String = if block < weeks {
            week_dates[block as usize].display_range.clone()
        } else {
            final_week_dates[(block - weeks) as usize].display_range.clone()
        };
        cells.push(
            MergedCell { row: 0, first_col, last_col, text: label, style: CellStyle::HeaderWeek },
        );
        cells.push(
            MergedCell {
                row: 1,
                first_col,
                last_col,
                text: block_title(weeks, block),
                style: CellStyle::HeaderWeek,
            },
        );
        block += 1;
    }
    cells
}

/// The block of a data column, its position in the block, and whether it
/// is the block's last column.
fn locate_column(weeks: i32, col: u16) -> (place: (i32, u16, bool))
    requires
        0 <= weeks <= MAX_LAYOUT_WEEKS,
        1 <= col <= data_columns(weeks as int),
    ensures
        place.0 == block_of_col(weeks as int, col as int),
        place.1 == day_in_block(weeks as int, col as int),
        place.2 == ends_block(weeks as int, col as int),
        0 <= place.0 <= weeks + 1,
        place.1 < block_width(weeks as int, place.0 as int),
{
    let at: i32 = col as i32;
    let block: i32 = if at > 4 * (weeks + 1) {
        weeks + 1
    } else {
        (at - 1) / 4
    };
    let day: i32 = at - 1 - 4 * block;
    let width: i32 = if block == weeks + 1 {
        5
    } else {
        4
    };
    (block, day as u16, day == width - 1)
}

/// The day-number cells of row 2.
pub fn day_number_cells(weeks: i32) -> (cells: Vec<SheetCell>)
    requires
        0 <= weeks <= MAX_LAYOUT_WEEKS,
    ensures
        are_day_cells(cells@, weeks as int),
{
    let last: u16 = (4 * weeks + 9) as u16;
    let mut cells: Vec<SheetCell> = Vec::new();
    let mut col: u16 = 1;
    while col <= last
        invariant
            0 <= weeks <= MAX_LAYOUT_WEEKS,
            last == data_columns(weeks as int),
            1 <= col <= last + 1,
            cells.len() == col - 1,
            forall|i: int| 0 <= i < col - 1 ==> (#[trigger] cells[i])@ == day_cell(weeks as int, i + 1),
        decreases last + 1 - col,
    {
        let place = locate_column(weeks, col);
        let style: CellStyle = if place.2 {
            CellStyle::HeaderDayWeekEnd
        } else {
            CellStyle::HeaderDay
        };
        let number: u32 = place.1 as u32 + 1;
        cells.push(SheetCell { row: 2, col, content: CellContent::Number(number), style });
        col += 1;
    }
    cells
}

/// The code that a fragment holds for a data column.
fn code_at(fragment: &FragmentExportData, weeks: i32, block: i32, day: u16) -> (code: &Option<String>)
    requires
        0 <= weeks <= MAX_LAYOUT_WEEKS,
        fragment.fits(weeks as int),
        0 <= block <= weeks + 1,
        day < block_width(weeks as int, block as int),
    ensures
        (match *code {
            Some(text) => Some(text@),
            None => None,
        }) == (if block < weeks {
            codes_view(fragment.weekly_data[block as int]@)[day as int]
        } else if block == weeks {
            codes_view(fragment.consultas_data@)[day as int]
        } else {
            codes_view(fragment.examenes_data@)[day as int]
        }),
{
    if block < weeks {
        &fragment.weekly_data[block as usize][day as usize]
    } else if block == weeks {
        &fragment.consultas_data[day as usize]
    } else {
        &fragment.examenes_data[day as usize]
    }
}

/// The cells of a subject's row: its name, then the code of each data
/// column.
pub fn fragment_cells(fragment: &FragmentExportData, weeks: i32, row: u32) -> (cells: Vec<SheetCell>)
    requires
        0 <= weeks <= MAX_LAYOUT_WEEKS,
        fragment.fits(weeks as int),
    ensures
        is_fragment_row(cells@, *fragment, weeks as int, row as int),
{
    let last: u16 = (4 * weeks + 9) as u16;
    let mut cells: Vec<SheetCell> = Vec::new();
    cells.push(
        SheetCell {
            row,
            col: 0,
            content: CellContent::Text(fragment.name.clone()),
            style: CellStyle::CellSubjectName,
        },
    );
    let mut col: u16 = 1;
    while col <= last
        invariant
            0 <= weeks <= MAX_LAYOUT_WEEKS,
            fragment.fits(weeks as int),
            last == data_columns(weeks as int),
            1 <= col <= last + 1,
            cells.len() == col,
            cells[0]@ == name_cell(*fragment, row as int),
            forall|c: int|
                1 <= c < col ==> (#[trigger] cells[c])@ == data_cell(
                    *fragment,
                    weeks as int,
                    row as int,
                    c,
                ),
        decreases last + 1 - col,
    {
        let place = locate_column(weeks, col);
        let code = code_at(fragment, weeks, place.0, place.1);
        let style = style_for_code(code, place.2);
        let text: String = match code {
            Some(found) => found.clone(),
            None => String::new(),
        };
        cells.push(SheetCell { row, col, content: CellContent::Text(text), style });
        col += 1;
    }
    cells
}

/// The name of the sheet: the academic year followed by ".ICS".
pub open spec fn sheet_name_text(academic_year: Seq<char>) -> Seq<char> {
    academic_year + ".ICS"@
}

/// The name of the sheet of a balance.
pub fn sheet_name(config: &BalanceExportConfig) -> (name: String)
    ensures
        name@ == sheet_name_text(config.academic_year@),
{
    let mut name = config.academic_year.clone();
    name.append(".ICS");
    name
}

/// Lays out the sheet of a balance from its calendar: the lective weeks
/// and the two trailing blocks. Fails when the balance has more weeks or
/// subjects than can be numbered.
pub fn build_sheet_layout(
    config: &BalanceExportConfig,
    week_dates: &Vec<WeekDateInfo>,
    final_week_dates: &Vec<WeekDateInfo>,
) -> (layout: Option<SheetLayout>)
    requires
        config.well_formed(),
        week_dates.len() == config.weeks,
        final_week_dates.len() == 2,
    ensures
        layout is Some <==> sheet_fits(config.weeks as int, config.fragments.len() as int),
        layout matches Some(sheet) ==> is_sheet_layout(
            sheet,
            sheet_name_text(config.academic_year@),
            config.weeks as int,
            block_labels(week_dates@, final_week_dates@),
            config.fragments@,
        ),
{
    let weeks: i32 = config.weeks;
    if weeks > MAX_LAYOUT_WEEKS || config.fragments.len() > MAX_LAYOUT_FRAGMENTS {
        return None;
    }
    let mut rows: Vec<Vec<SheetCell>> = Vec::new();
    let mut f: usize = 0;
    while f < config.fragments.len()
        invariant
            config.well_formed(),
            weeks == config.weeks,
            0 <= weeks <= MAX_LAYOUT_WEEKS,
            config.fragments.len() <= MAX_LAYOUT_FRAGMENTS,
            f <= config.fragments.len(),
            rows.len() == f,
            forall|g: int|
                0 <= g < f ==> is_fragment_row(
                    (#[trigger] rows[g])@,
                    config.fragments[g],
                    weeks as int,
                    3 + g,
                ),
        decreases config.fragments.len() - f,
    {
        let row: u32 = 3 + f as u32;
        let cells = fragment_cells(&config.fragments[f], weeks, row);
        rows.push(cells);
        f += 1;
    }
    Some(
        SheetLayout {
            name: sheet_name(config),
            last_col: (4 * weeks + 9) as u16,
            label_column_width: LABEL_COLUMN_WIDTH,
            data_column_width: DATA_COLUMN_WIDTH,
            corner: SheetCell {
                row: 0,
                col: 0,
                content: CellContent::Text(String::from_str("Asignaturas")),
                style: CellStyle::HeaderBold,
            },
            headers: header_cells(weeks, week_dates, final_week_dates),
            day_cells: day_number_cells(weeks),
            rows,
        },
    )
}

} // verus!
