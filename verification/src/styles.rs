//! The cell styles of the sheet, as plain descriptions.

use crate::activity::{is_critical_code, is_critical_type};
use vstd::prelude::*;

verus! {

/// Fill of the header cells: light gray.
pub const HEADER_FILL: u32 = 0xD9D9D9;

/// Fill of the cells that hold a critical activity code: light red.
pub const CRITICAL_FILL: u32 = 0xFF6B6B;

/// Colour of the borders: black.
pub const BORDER_COLOR: u32 = 0x000000;

/// Font of every cell.
pub const FONT_NAME: &'static str = "Arial";

/// Font size of every cell.
pub const FONT_SIZE: u32 = 10;

/// The styles that cells of the sheet are written with.
#[derive(Clone, Copy, Debug, PartialEq, Eq, Structural)]
pub enum CellStyle {
    /// The top-left header.
    HeaderBold,
    /// Date-range labels and block names.
    HeaderWeek,
    /// Day number inside a block.
    HeaderDay,
    /// Day number in the last column of a block.
    HeaderDayWeekEnd,
    /// Activity cell inside a block.
    CellActivity,
    /// Activity cell in the last column of a block.
    CellActivityWeekEnd,
    /// Critical activity cell inside a block.
    CellActivityCritical,
    /// Critical activity cell in the last column of a block.
    CellActivityCriticalWeekEnd,
    /// Subject name.
    CellSubjectName,
}

/// The weight of a border line.
#[derive(Clone, Copy, Debug, PartialEq, Eq, Structural)]
pub enum BorderWeight {
    Thin,
    Medium,
}

/// What a style sets on a cell. The font is Arial 10 throughout.
#[derive(Clone, Copy, Debug, PartialEq, Eq, Structural)]
pub struct StyleSpec {
    pub bold: bool,
    pub centered: bool,
    pub vertically_centered: bool,
    pub text_wrap: bool,
    /// RGB fill, if any.
    pub fill: Option<u32>,
    /// Weight of the top, bottom and left borders.
    pub border: BorderWeight,
    /// Weight of the right border.
    pub border_right: BorderWeight,
    /// Whether the border colour is set explicitly (to black).
    pub border_colored: bool,
}

/// The description of each style.
pub open spec fn style_description(style: CellStyle) -> StyleSpec {
    match style {
        CellStyle::HeaderBold => StyleSpec {
            bold: true,
            centered: true,
            vertically_centered: true,
            text_wrap: true,
            fill: Some(HEADER_FILL),
            border: BorderWeight::Medium,
            border_right: BorderWeight::Medium,
            border_colored: false,
        },
        CellStyle::HeaderWeek => StyleSpec {
            bold: true,
            centered: true,
            vertically_centered: false,
            text_wrap: false,
            fill: Some(HEADER_FILL),
            border: BorderWeight::Medium,
            border_right: BorderWeight::Medium,
            border_colored: true,
        },
        CellStyle::HeaderDay | CellStyle::CellActivity => StyleSpec {
            bold: false,
            centered: true,
            vertically_centered: false,
            text_wrap: false,
            fill: None,
            border: BorderWeight::Thin,
            border_right: BorderWeight::Thin,
            border_colored: true,
        },
        CellStyle::HeaderDayWeekEnd | CellStyle::CellActivityWeekEnd => StyleSpec {
            bold: false,
            centered: true,
            vertically_centered: false,
            text_wrap: false,
            fill: None,
            border: BorderWeight::Thin,
            border_right: BorderWeight::Medium,
            border_colored: true,
        },
        CellStyle::CellActivityCritical => StyleSpec {
            bold: false,
            centered: true,
            vertically_centered: false,
            text_wrap: false,
            fill: Some(CRITICAL_FILL),
            border: BorderWeight::Thin,
            border_right: BorderWeight::Thin,
            border_colored: true,
        },
        CellStyle::CellActivityCriticalWeekEnd => StyleSpec {
            bold: false,
            centered: true,
            vertically_centered: false,
            text_wrap: false,
            fill: Some(CRITICAL_FILL),
            border: BorderWeight::Thin,
            border_right: BorderWeight::Medium,
            border_colored: true,
        },
        CellStyle::CellSubjectName => StyleSpec {
            bold: false,
            centered: false,
            vertically_centered: false,
            text_wrap: false,
            fill: None,
            border: BorderWeight::Thin,
            border_right: BorderWeight::Thin,
            border_colored: true,
        },
    }
}

/// The style of a data cell: highlighted when its code is critical, with
/// the heavier right border when it closes a block.
pub open spec fn data_style(code: Option<Seq<char>>, ends_block: bool) -> CellStyle {
    let critical = match code {
        Some(text) => is_critical_code(text),
        None => false,
    };
    if ends_block {
        if critical {
            CellStyle::CellActivityCriticalWeekEnd
        } else {
            CellStyle::CellActivityWeekEnd
        }
    } else {
        if critical {
            CellStyle::CellActivityCritical
        } else {
            CellStyle::CellActivity
        }
    }
}

/// The style of a day-number cell, with the heavier right border when it
/// closes a block.
pub open spec fn day_style(ends_block: bool) -> CellStyle {
    if ends_block {
        CellStyle::HeaderDayWeekEnd
    } else {
        CellStyle::HeaderDay
    }
}

/// Block-boundary emphasis and the overload flag are independent: a data
/// cell has the heavier right border exactly when it closes a block, and
/// the highlighted fill exactly when its code is critical.
pub proof fn lemma_data_style_rules(code: Option<Seq<char>>, ends_block: bool)
    ensures
        style_description(data_style(code, ends_block)).border_right == if ends_block {
            BorderWeight::Medium
        } else {
            BorderWeight::Thin
        },
        style_description(data_style(code, ends_block)).fill == if code is Some
            && is_critical_code(code->0) {
            Some(CRITICAL_FILL)
        } else {
            None::<u32>
        },
        style_description(data_style(code, ends_block)).border == BorderWeight::Thin,
{
}

/// A day-number cell has the heavier right border exactly when it closes
/// a block.
pub proof fn lemma_day_style_rules(ends_block: bool)
    ensures
        style_description(day_style(ends_block)).border_right == if ends_block {
            BorderWeight::Medium
        } else {
            BorderWeight::Thin
        },
{
}

/// The description of a style.
pub fn style_spec(style: CellStyle) -> (spec: StyleSpec)
    ensures
        spec == style_description(style),
{
    match style {
        CellStyle::HeaderBold => StyleSpec {
            bold: true,
            centered: true,
            vertically_centered: true,
            text_wrap: true,
            fill: Some(HEADER_FILL),
            border: BorderWeight::Medium,
            border_right: BorderWeight::Medium,
            border_colored: false,
        },
        CellStyle::HeaderWeek => StyleSpec {
            bold: true,
            centered: true,
            vertically_centered: false,
            text_wrap: false,
            fill: Some(HEADER_FILL),
            border: BorderWeight::Medium,
            border_right: BorderWeight::Medium,
            border_colored: true,
        },
        CellStyle::HeaderDay | CellStyle::CellActivity => StyleSpec {
            bold: false,
            centered: true,
            vertically_centered: false,
            text_wrap: false,
            fill: None,
            border: BorderWeight::Thin,
            border_right: BorderWeight::Thin,
            border_colored: true,
        },
        CellStyle::HeaderDayWeekEnd | CellStyle::CellActivityWeekEnd => StyleSpec {
            bold: false,
            centered: true,
            vertically_centered: false,
            text_wrap: false,
            fill: None,
            border: BorderWeight::Thin,
            border_right: BorderWeight::Medium,
            border_colored: true,
        },
        CellStyle::CellActivityCritical => StyleSpec {
            bold: false,
            centered: true,
            vertically_centered: false,
            text_wrap: false,
            fill: Some(CRITICAL_FILL),
            border: BorderWeight::Thin,
            border_right: BorderWeight::Thin,
            border_colored: true,
        },
        CellStyle::CellActivityCriticalWeekEnd => StyleSpec {
            bold: false,
            centered: true,
            vertically_centered: false,
            text_wrap: false,
            fill: Some(CRITICAL_FILL),
            border: BorderWeight::Thin,
            border_right: BorderWeight::Medium,
            border_colored: true,
        },
        CellStyle::CellSubjectName => StyleSpec {
            bold: false,
            centered: false,
            vertically_centered: false,
            text_wrap: false,
            fill: None,
            border: BorderWeight::Thin,
            border_right: BorderWeight::Thin,
            border_colored: true,
        },
    }
}

/// The style of the data cell that holds `code`.
pub fn style_for_code(code: &Option<String>, ends_block: bool) -> (style: CellStyle)
    ensures
        style == data_style(
            match *code {
                Some(text) => Some(text@),
                None => None,
            },
            ends_block,
        ),
{
    let critical: bool = match code {
        Some(text) => is_critical_type(text.as_str()),
        None => false,
    };
    if ends_block {
        if critical {
            CellStyle::CellActivityCriticalWeekEnd
        } else {
            CellStyle::CellActivityWeekEnd
        }
    } else {
        if critical {
            CellStyle::CellActivityCritical
        } else {
            CellStyle::CellActivity
        }
    }
}

} // verus!
