//! Decoding a subject's flat sequence of activity codes into the weekly
//! grid and the two trailing blocks, and encoding a grid back.

use crate::activity::is_activity_code;
use crate::json::{json_member_items, json_text, member_array, text_of};
use vstd::prelude::*;

verus! {

/// Slots per lective week.
pub const DAYS_PER_WEEK: u64 = 4;

/// Slots of the Consultas block.
pub const CONSULTAS_SLOTS: u64 = 4;

/// Slots of the Exámenes Finales block.
pub const EXAMENES_SLOTS: u64 = 5;

/// The texts of a list of optional strings.
pub open spec fn codes_view(codes: Seq<Option<String>>) -> Seq<Option<Seq<char>>> {
    Seq::new(
        codes.len(),
        |i: int|
            match codes[i] {
                Some(code) => Some(code@),
                None => None,
            },
    )
}

/// The texts of a grid of optional strings.
pub open spec fn grid_view(grid: Seq<Vec<Option<String>>>) -> Seq<Seq<Option<Seq<char>>>> {
    Seq::new(grid.len(), |w: int| codes_view(grid[w]@))
}

/// The code at `index` of the flat sequence: absent when the index is out
/// of range, the entry is missing, or the entry is the empty string.
pub open spec fn slot_at(raw: Seq<Option<Seq<char>>>, index: int) -> Option<Seq<char>> {
    if 0 <= index < raw.len() {
        match raw[index] {
            Some(code) => if code.len() > 0 {
                Some(code)
            } else {
                None
            },
            None => None,
        }
    } else {
        None
    }
}

/// `width` consecutive slots starting at `first`.
pub open spec fn block_at(raw: Seq<Option<Seq<char>>>, first: int, width: int) -> Seq<
    Option<Seq<char>>,
> {
    Seq::new(width as nat, |i: int| slot_at(raw, first + i))
}

/// The weekly grid: slot `(week, day)` reads index `4 * week + day`.
pub open spec fn weekly_grid(raw: Seq<Option<Seq<char>>>, weeks: int) -> Seq<
    Seq<Option<Seq<char>>>,
> {
    Seq::new(weeks as nat, |w: int| block_at(raw, 4 * w, 4))
}

/// The Consultas block: indices `4 * weeks` to `4 * weeks + 3`.
pub open spec fn consultas_block(raw: Seq<Option<Seq<char>>>, weeks: int) -> Seq<
    Option<Seq<char>>,
> {
    block_at(raw, 4 * weeks, 4)
}

/// The Exámenes Finales block: indices `4 * weeks + 4` to `4 * weeks + 8`.
pub open spec fn examenes_block(raw: Seq<Option<Seq<char>>>, weeks: int) -> Seq<
    Option<Seq<char>>,
> {
    block_at(raw, 4 * weeks + 4, 5)
}

/// The flat sequence that a fragment's JSON data holds under `"values"`:
/// one entry per array item, missing where the item is no string; empty
/// when there is no such array.
pub open spec fn raw_values(data: serde_json::Value) -> Seq<Option<Seq<char>>> {
    match json_member_items(data, "values"@) {
        Some(items) => Seq::new(items.len(), |i: int| json_text(items[i])),
        None => Seq::empty(),
    }
}

fn read_slot(seq: &Vec<Option<String>>, index: u64) -> (slot: Option<String>)
    ensures
        codes_view(seq![slot])[0] == slot_at(codes_view(seq@), index as int),
{
    if index < seq.len() as u64 {
        let at: usize = index as usize;
        match &seq[at] {
            Some(code) => {
                if !code.as_str().is_empty() {
                    Some(code.clone())
                } else {
                    None
                }
            },
            None => None,
        }
    } else {
        None
    }
}

fn decode_block(seq: &Vec<Option<String>>, first: u64, width: u64) -> (block: Vec<Option<String>>)
    requires
        first + width <= u64::MAX,
    ensures
        codes_view(block@) == block_at(codes_view(seq@), first as int, width as int),
{
    let mut block: Vec<Option<String>> = Vec::new();
    let mut i: u64 = 0;
    while i < width
        invariant
            i <= width,
            first + width <= u64::MAX,
            block.len() == i,
            forall|j: int|
                0 <= j < i ==> #[trigger] codes_view(block@)[j] == slot_at(
                    codes_view(seq@),
                    first + j,
                ),
        decreases width - i,
    {
        let slot = read_slot(seq, first + i);
        let ghost before = block@;
        block.push(slot);
        proof {
            assert forall|j: int| 0 <= j < i + 1 implies #[trigger] codes_view(block@)[j]
                == slot_at(codes_view(seq@), first + j) by {
                if j < i {
                    assert(codes_view(before)[j] == slot_at(codes_view(seq@), first + j));
                } else {
                }
            }
        }
        i += 1;
    }
    block
}

/// Decodes the weekly grid: `weeks` rows of four slots, slot `(week, day)`
/// read from index `4 * week + day`.
pub fn decode_weekly(seq: &Vec<Option<String>>, weeks: i32) -> (grid: Vec<Vec<Option<String>>>)
    requires
        weeks >= 0,
    ensures
        grid_view(grid@) == weekly_grid(codes_view(seq@), weeks as int),
{
    let mut grid: Vec<Vec<Option<String>>> = Vec::new();
    let mut week: i32 = 0;
    while week < weeks
        invariant
            0 <= week <= weeks,
            grid.len() == week,
            forall|w: int|
                0 <= w < week ==> #[trigger] grid_view(grid@)[w] == block_at(
                    codes_view(seq@),
                    4 * w,
                    4,
                ),
        decreases weeks - week,
    {
        let row = decode_block(seq, DAYS_PER_WEEK * (week as u64), DAYS_PER_WEEK);
        let ghost before = grid@;
        grid.push(row);
        proof {
            assert forall|w: int| 0 <= w < week + 1 implies #[trigger] grid_view(grid@)[w]
                == block_at(codes_view(seq@), 4 * w, 4) by {
                if w < week {
                    assert(grid_view(before)[w] == block_at(codes_view(seq@), 4 * w, 4));
                }
            }
        }
        week += 1;
    }
    grid
}

/// Decodes the four Consultas slots, which follow the weekly grid.
pub fn decode_consultas(seq: &Vec<Option<String>>, weeks: i32) -> (block: Vec<Option<String>>)
    requires
        weeks >= 0,
    ensures
        codes_view(block@) == consultas_block(codes_view(seq@), weeks as int),
{
    decode_block(seq, DAYS_PER_WEEK * (weeks as u64), CONSULTAS_SLOTS)
}

/// Decodes the five Exámenes Finales slots, which follow the Consultas
/// block.
pub fn decode_examenes(seq: &Vec<Option<String>>, weeks: i32) -> (block: Vec<Option<String>>)
    requires
        weeks >= 0,
    ensures
        codes_view(block@) == examenes_block(codes_view(seq@), weeks as int),
{
    decode_block(seq, DAYS_PER_WEEK * (weeks as u64) + CONSULTAS_SLOTS, EXAMENES_SLOTS)
}

/// Reads the flat activity sequence out of a fragment's JSON data: the
/// array under `"values"`, with a missing entry for each item that is no
/// string.
pub fn raw_activity_sequence(data: &serde_json::Value) -> (seq: Vec<Option<String>>)
    ensures
        codes_view(seq@) == raw_values(*data),
{
    let mut seq: Vec<Option<String>> = Vec::new();
    match member_array(data, "values") {
        Some(items) => {
            let mut i: usize = 0;
            while i < items.len()
                invariant
                    i <= items.len(),
                    seq.len() == i,
                    forall|j: int|
                        0 <= j < i ==> #[trigger] codes_view(seq@)[j] == json_text(items@[j]),
                decreases items.len() - i,
            {
                let entry: Option<String> = match text_of(&items[i]) {
                    Some(text) => Some(String::from_str(text)),
                    None => None,
                };
                let ghost before = seq@;
                seq.push(entry);
                proof {
                    assert forall|j: int| 0 <= j < i + 1 implies #[trigger] codes_view(seq@)[j]
                        == json_text(items@[j]) by {
                        if j < i {
                            assert(codes_view(before)[j] == json_text(items@[j]));
                        }
                    }
                }
                i += 1;
            }
        },
        None => {
        },
    }
    seq
}

/// Parse a fragment's JSON data into the weekly grid. The data holds
/// `{ "values": ["C", "CP", "", "S", ...] }`, four items per week.
pub fn parse_fragment_data(data: &serde_json::Value, weeks: i32) -> (grid: Vec<
    Vec<Option<String>>,
>)
    requires
        weeks >= 0,
    ensures
        grid_view(grid@) == weekly_grid(raw_values(*data), weeks as int),
{
    let seq = raw_activity_sequence(data);
    decode_weekly(&seq, weeks)
}

/// Parse the Consultas data (four cells after the regular weeks).
pub fn parse_consultas_data(data: &serde_json::Value, weeks: i32) -> (block: Vec<Option<String>>)
    requires
        weeks >= 0,
    ensures
        codes_view(block@) == consultas_block(raw_values(*data), weeks as int),
{
    let seq = raw_activity_sequence(data);
    decode_consultas(&seq, weeks)
}

/// Parse the Exámenes Finales data (five cells after the Consultas).
pub fn parse_examenes_data(data: &serde_json::Value, weeks: i32) -> (block: Vec<Option<String>>)
    requires
        weeks >= 0,
    ensures
        codes_view(block@) == examenes_block(raw_values(*data), weeks as int),
{
    let seq = raw_activity_sequence(data);
    decode_examenes(&seq, weeks)
}

/// A grid of `weeks` rows of four slots, each absent or one of the eight
/// activity codes.
pub open spec fn is_activity_grid(grid: Seq<Seq<Option<Seq<char>>>>, weeks: int) -> bool {
    &&& grid.len() == weeks
    &&& forall|w: int| 0 <= w < grid.len() ==> (#[trigger] grid[w]).len() == 4
    &&& forall|w: int, d: int|
        0 <= w < grid.len() && 0 <= d < 4 ==> match #[trigger] grid[w][d] {
            Some(code) => is_activity_code(code),
            None => true,
        }
}

/// The flat sequence of a grid: week after week, four entries each, the
/// empty string where a slot is absent.
pub open spec fn flat_sequence(grid: Seq<Seq<Option<Seq<char>>>>) -> Seq<Option<Seq<char>>> {
    Seq::new(
        4 * grid.len(),
        |i: int|
            match grid[i / 4][i % 4] {
                Some(code) => Some(code),
                None => Some(Seq::empty()),
            },
    )
}

/// Decoding the flat sequence of a grid of activity codes gives the grid
/// back.
pub proof fn lemma_decode_inverts_encode(grid: Seq<Seq<Option<Seq<char>>>>, weeks: int)
    requires
        is_activity_grid(grid, weeks),
    ensures
        weekly_grid(flat_sequence(grid), weeks) == grid,
{
    assert(weekly_grid(flat_sequence(grid), weeks) =~~= grid);
}

/// Encodes a weekly grid as its flat sequence, the inverse of
/// `decode_weekly`: four entries per week, the empty string for an absent
/// slot.
pub fn encode_weekly(grid: &Vec<Vec<Option<String>>>) -> (seq: Vec<Option<String>>)
    requires
        forall|w: int| 0 <= w < grid.len() ==> (#[trigger] grid[w]).len() == 4,
        4 * grid.len() <= usize::MAX,
    ensures
        codes_view(seq@) == flat_sequence(grid_view(grid@)),
{
    let mut seq: Vec<Option<String>> = Vec::new();
    let mut week: usize = 0;
    while week < grid.len()
        invariant
            week <= grid.len(),
            4 * grid.len() <= usize::MAX,
            seq.len() == 4 * week,
            forall|w: int| 0 <= w < grid.len() ==> (#[trigger] grid[w]).len() == 4,
            forall|i: int|
                0 <= i < 4 * week ==> #[trigger] codes_view(seq@)[i] == flat_sequence(
                    grid_view(grid@),
                )[i],
        decreases grid.len() - week,
    {
        let mut day: usize = 0;
        while day < 4
            invariant
                day <= 4,
                week < grid.len(),
                4 * grid.len() <= usize::MAX,
                grid[week as int].len() == 4,
                seq.len() == 4 * week + day,
                forall|i: int|
                    0 <= i < 4 * week + day ==> #[trigger] codes_view(seq@)[i] == flat_sequence(
                        grid_view(grid@),
                    )[i],
            decreases 4 - day,
        {
            let entry: Option<String> = match &grid[week][day] {
                Some(code) => Some(code.clone()),
                None => Some(String::new()),
            };
            let ghost before = seq@;
            seq.push(entry);
            proof {
                let flat = flat_sequence(grid_view(grid@));
                assert forall|i: int| 0 <= i < 4 * week + day + 1 implies #[trigger] codes_view(
                    seq@,
                )[i] == flat[i] by {
                    if i < 4 * week + day {
                        assert(codes_view(before)[i] == flat[i]);
                    } else {
                    }
                }
            }
            day += 1;
        }
        week += 1;
    }
    seq
}

} // verus!
