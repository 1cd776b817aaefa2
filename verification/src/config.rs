//! What an export is made from: the balance's metadata and, per subject,
//! the decoded activity grid with the planned hours.

use crate::calendar::{calendar_in_range, ranges_of, try_calculate_final_weeks_dates};
use crate::codec::{
    codes_view, consultas_block, decode_consultas, decode_examenes, decode_weekly, examenes_block,
    grid_view, raw_activity_sequence, raw_values, weekly_grid,
};
use crate::dates::CalendarDate;
use vstd::prelude::*;

verus! {

/// Planned hours for each activity type: the eight types of the grid and
/// the two that only appear in the plan (`tc`, `ef`).
#[derive(Clone, Copy, Debug, PartialEq, Eq)]
pub struct ActivityPlan {
    pub c: i32,
    pub cp: i32,
    pub s: i32,
    pub pl: i32,
    pub te: i32,
    pub t: i32,
    pub pp: i32,
    pub ec: i32,
    pub tc: i32,
    pub ef: i32,
}

impl Default for ActivityPlan {
    fn default() -> (plan: ActivityPlan)
        ensures
            plan == (ActivityPlan {
                c: 0,
                cp: 0,
                s: 0,
                pl: 0,
                te: 0,
                t: 0,
                pp: 0,
                ec: 0,
                tc: 0,
                ef: 0,
            }),
    {
        ActivityPlan { c: 0, cp: 0, s: 0, pl: 0, te: 0, t: 0, pp: 0, ec: 0, tc: 0, ef: 0 }
    }
}

/// Data for a single fragment (one subject) of the balance.
#[derive(Clone, Debug)]
pub struct FragmentExportData {
    pub name: String,
    pub hours: i32,
    /// Weekly data: one row of four slots per lective week.
    pub weekly_data: Vec<Vec<Option<String>>>,
    /// Consultas data (4 cells).
    pub consultas_data: Vec<Option<String>>,
    /// Exámenes Finales data (5 cells).
    pub examenes_data: Vec<Option<String>>,
    /// Planned hours by activity type.
    pub plan: ActivityPlan,
}

impl FragmentExportData {
    /// The fragment has the shape of a balance of `weeks` lective weeks:
    /// `weeks` rows of four slots, four Consultas slots, five Exámenes
    /// Finales slots.
    pub open spec fn fits(self, weeks: int) -> bool {
        &&& self.weekly_data.len() == weeks
        &&& forall|w: int| 0 <= w < self.weekly_data.len() ==> (#[trigger] self.weekly_data[w]).len() == 4
        &&& self.consultas_data.len() == 4
        &&& self.examenes_data.len() == 5
    }

    /// Builds a fragment by decoding its flat activity sequence.
    pub fn from_sequence(
        name: String,
        hours: i32,
        seq: &Vec<Option<String>>,
        weeks: i32,
        plan: ActivityPlan,
    ) -> (fragment: FragmentExportData)
        requires
            weeks >= 0,
        ensures
            fragment.fits(weeks as int),
            fragment.name == name,
            fragment.hours == hours,
            fragment.plan == plan,
            grid_view(fragment.weekly_data@) == weekly_grid(codes_view(seq@), weeks as int),
            codes_view(fragment.consultas_data@) == consultas_block(codes_view(seq@), weeks as int),
            codes_view(fragment.examenes_data@) == examenes_block(codes_view(seq@), weeks as int),
    {
        let weekly_data = decode_weekly(seq, weeks);
        let consultas_data = decode_consultas(seq, weeks);
        let examenes_data = decode_examenes(seq, weeks);
        proof {
            let raw = codes_view(seq@);
            assert(grid_view(weekly_data@).len() == weeks);
            assert forall|w: int| 0 <= w < weekly_data.len() implies (#[trigger] weekly_data[w]).len()
                == 4 by {
                assert(grid_view(weekly_data@)[w].len() == 4);
            }
            assert(codes_view(consultas_data@).len() == 4);
            assert(codes_view(examenes_data@).len() == 5);
        }
        FragmentExportData { name, hours, weekly_data, consultas_data, examenes_data, plan }
    }

    /// Builds a fragment by decoding the activity sequence that its JSON
    /// data holds under `"values"`.
    pub fn from_json(
        name: String,
        hours: i32,
        data: &serde_json::Value,
        weeks: i32,
        plan: ActivityPlan,
    ) -> (fragment: FragmentExportData)
        requires
            weeks >= 0,
        ensures
            fragment.fits(weeks as int),
            fragment.name == name,
            fragment.hours == hours,
            fragment.plan == plan,
            grid_view(fragment.weekly_data@) == weekly_grid(raw_values(*data), weeks as int),
            codes_view(fragment.consultas_data@) == consultas_block(raw_values(*data), weeks as int),
            codes_view(fragment.examenes_data@) == examenes_block(raw_values(*data), weeks as int),
    {
        let seq = raw_activity_sequence(data);
        FragmentExportData::from_sequence(name, hours, &seq, weeks, plan)
    }

    /// Whether the fragment has the shape of a balance of `weeks` weeks.
    pub fn has_shape(&self, weeks: i32) -> (fits: bool)
        ensures
            fits == self.fits(weeks as int),
    {
        if weeks < 0 || self.weekly_data.len() != weeks as usize || self.consultas_data.len() != 4
            || self.examenes_data.len() != 5 {
            return false;
        }
        let mut w: usize = 0;
        while w < self.weekly_data.len()
            invariant
                w <= self.weekly_data.len(),
                forall|v: int| 0 <= v < w ==> (#[trigger] self.weekly_data[v]).len() == 4,
            decreases self.weekly_data.len() - w,
        {
            if self.weekly_data[w].len() != 4 {
                return false;
            }
            w += 1;
        }
        true
    }
}

/// Balance export configuration.
#[derive(Clone, Debug)]
pub struct BalanceExportConfig {
    /// "1ro", "2do", "3ro", "4to".
    pub academic_year: String,
    /// "1ero", "2do".
    pub period: String,
    /// "2025-2026".
    pub academic_year_text: String,
    pub start_date: CalendarDate,
    pub weeks: i32,
    pub fragments: Vec<FragmentExportData>,
    /// Non-academic periods (vacations, etc.): first day, last day, label.
    pub non_academic_periods: Vec<(CalendarDate, CalendarDate, String)>,
}

impl BalanceExportConfig {
    /// The week count is not negative and every fragment has the shape of
    /// a balance of that many weeks.
    pub open spec fn well_formed(self) -> bool {
        &&& self.weeks >= 0
        &&& forall|f: int|
            0 <= f < self.fragments.len() ==> (#[trigger] self.fragments[f]).fits(self.weeks as int)
    }

    /// The balance can be exported: it is well formed, and its calendar,
    /// with the two trailing blocks, ends within the representable dates.
    pub open spec fn exportable(self) -> bool {
        &&& self.well_formed()
        &&& calendar_in_range(
            self.start_date@,
            ranges_of(self.non_academic_periods@),
            self.weeks + 2,
        )
    }

    /// Whether the balance can be exported.
    pub fn is_exportable(&self) -> (exportable: bool)
        ensures
            exportable == self.exportable(),
    {
        if self.weeks < 0 {
            return false;
        }
        let mut f: usize = 0;
        while f < self.fragments.len()
            invariant
                f <= self.fragments.len(),
                forall|g: int| 0 <= g < f ==> (#[trigger] self.fragments[g]).fits(self.weeks as int),
            decreases self.fragments.len() - f,
        {
            if !self.fragments[f].has_shape(self.weeks) {
                return false;
            }
            f += 1;
        }
        try_calculate_final_weeks_dates(
            self.start_date,
            self.weeks,
            self.non_academic_periods.as_slice(),
        ).is_some()
    }
}

} // verus!
