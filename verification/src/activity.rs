//! Activity codes used in the weekly planning grid.
//!
//! C: Conferencia, CP: Clase Práctica, S: Seminario, PL: Práctica de
//! Laboratorio, TE: Tarea Extraclase, T: Taller, PP: Prueba Parcial,
//! EC: Examen Comprobatorio.

use vstd::prelude::*;

verus! {

/// Whether `code` is one of the eight activity codes of the grid.
pub open spec fn is_activity_code(code: Seq<char>) -> bool {
    ||| code == seq!['C']
    ||| code == seq!['C', 'P']
    ||| code == seq!['S']
    ||| code == seq!['P', 'L']
    ||| code == seq!['T', 'E']
    ||| code == seq!['T']
    ||| code == seq!['P', 'P']
    ||| code == seq!['E', 'C']
}

/// Whether `code` is one of the three critical activity codes, the ones
/// that are flagged because too many of them in a week overload it.
pub open spec fn is_critical_code(code: Seq<char>) -> bool {
    code == seq!['T'] || code == seq!['T', 'E'] || code == seq!['P', 'P']
}

/// Every critical code is an activity code.
pub proof fn lemma_critical_codes_are_activity_codes(code: Seq<char>)
    requires
        is_critical_code(code),
    ensures
        is_activity_code(code),
{
}

/// Check if a text is one of the activity codes of the grid.
pub fn is_activity_type(activity: &str) -> (known: bool)
    ensures
        known == is_activity_code(activity@),
{
    let n: usize = activity.unicode_len();
    if n == 1 {
        let c0: char = activity.get_char(0);
        assert(activity@ =~= seq![c0]);
        c0 == 'C' || c0 == 'S' || c0 == 'T'
    } else if n == 2 {
        let c0: char = activity.get_char(0);
        let c1: char = activity.get_char(1);
        assert(activity@ =~= seq![c0, c1]);
        (c0 == 'C' && c1 == 'P') || (c0 == 'P' && c1 == 'L') || (c0 == 'T' && c1 == 'E') || (c0
            == 'P' && c1 == 'P') || (c0 == 'E' && c1 == 'C')
    } else {
        false
    }
}

/// Check if an activity type is critical (should be highlighted).
pub fn is_critical_type(activity: &str) -> (critical: bool)
    ensures
        critical == is_critical_code(activity@),
{
    let n: usize = activity.unicode_len();
    if n == 1 {
        let c0: char = activity.get_char(0);
        assert(activity@ =~= seq![c0]);
        c0 == 'T'
    } else if n == 2 {
        let c0: char = activity.get_char(0);
        let c1: char = activity.get_char(1);
        assert(activity@ =~= seq![c0, c1]);
        (c0 == 'T' && c1 == 'E') || (c0 == 'P' && c1 == 'P')
    } else {
        false
    }
}

} // verus!
