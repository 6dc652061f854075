//! The turn and shift of each key on the split Alice board, looked up by
//! row, column and label.
use vstd::prelude::*;
use crate::keyboard::{level, Key, Placement, Tilt};
use crate::text::str_eq;

verus! {

/// One entry of the Alice rotation configuration.
#[derive(Clone, Copy, Debug)]
pub struct TiltEntry {
    pub row: usize,
    pub col: usize,
    pub label: &'static str,
    pub placement: Placement,
}

/// The key under which an entry is stored.
pub open spec fn entry_key(e: TiltEntry) -> (int, int, Seq<char>) {
    (e.row as int, e.col as int, e.label@)
}

/// The configuration that inserting `t` entry by entry into an empty map
/// gives: a later entry under the same key replaces an earlier one.
pub open spec fn tilt_config(t: Seq<TiltEntry>) -> Map<(int, int, Seq<char>), Placement>
    decreases t.len(),
{
    if t.len() == 0 {
        Map::empty()
    } else {
        tilt_config(t.drop_last()).insert(entry_key(t.last()), t.last().placement)
    }
}

/// The placement stored in `m` under a key, or an untilted, unshifted key
/// when there is none.
pub open spec fn placement_in(m: Map<(int, int, Seq<char>), Placement>, row: int, col: int, label: Seq<char>) -> Placement {
    if m.contains_key((row, col, label)) {
        m[(row, col, label)]
    } else {
        level()
    }
}

/// The Alice rotation configuration, in insertion order. Rows count from the
/// number row; columns from the left of each row.
pub open spec fn alice_rotation_entries() -> Seq<TiltEntry> {
    seq![
        TiltEntry { row: 0, col: 0, label: "Esc", placement: Placement { tilt: Tilt::Level, offset_x: 0, offset_y: 0 } },
        TiltEntry { row: 0, col: 1, label: "~`", placement: Placement { tilt: Tilt::Level, offset_x: 0, offset_y: 0 } },
        TiltEntry { row: 0, col: 2, label: "1!", placement: Placement { tilt: Tilt::Level, offset_x: 0, offset_y: 0 } },
        TiltEntry { row: 0, col: 3, label: "2@", placement: Placement { tilt: Tilt::Level, offset_x: 0, offset_y: -10i32 } },
        TiltEntry { row: 0, col: 4, label: "3#", placement: Placement { tilt: Tilt::Clockwise, offset_x: -10i32, offset_y: 0 } },
        TiltEntry { row: 0, col: 5, label: "4$", placement: Placement { tilt: Tilt::Clockwise, offset_x: -10i32, offset_y: 8 } },
        TiltEntry { row: 0, col: 6, label: "5%", placement: Placement { tilt: Tilt::Clockwise, offset_x: -10i32, offset_y: 16 } },
        TiltEntry { row: 0, col: 7, label: "6^", placement: Placement { tilt: Tilt::Clockwise, offset_x: -10i32, offset_y: 24 } },
        TiltEntry { row: 0, col: 8, label: "7&", placement: Placement { tilt: Tilt::CounterClockwise, offset_x: 10, offset_y: 19 } },
        TiltEntry { row: 0, col: 9, label: "8*", placement: Placement { tilt: Tilt::CounterClockwise, offset_x: 10, offset_y: 11 } },
        TiltEntry { row: 0, col: 10, label: "9(", placement: Placement { tilt: Tilt::CounterClockwise, offset_x: 10, offset_y: 3 } },
        TiltEntry { row: 0, col: 11, label: "0)", placement: Placement { tilt: Tilt::CounterClockwise, offset_x: 10, offset_y: -5i32 } },
        TiltEntry { row: 0, col: 12, label: "_-", placement: Placement { tilt: Tilt::Level, offset_x: 0, offset_y: -10i32 } },
        TiltEntry { row: 0, col: 13, label: "=+", placement: Placement { tilt: Tilt::Level, offset_x: 0, offset_y: 0 } },
        TiltEntry { row: 0, col: 14, label: "Back", placement: Placement { tilt: Tilt::Level, offset_x: 0, offset_y: 0 } },
        TiltEntry { row: 1, col: 0, label: "Esc", placement: Placement { tilt: Tilt::Level, offset_x: 0, offset_y: 0 } },
        TiltEntry { row: 1, col: 1, label: "Tab", placement: Placement { tilt: Tilt::Level, offset_x: 0, offset_y: 0 } },
        TiltEntry { row: 1, col: 2, label: "Q", placement: Placement { tilt: Tilt::Level, offset_x: 0, offset_y: 0 } },
        TiltEntry { row: 1, col: 3, label: "W", placement: Placement { tilt: Tilt::Clockwise, offset_x: 0, offset_y: -5i32 } },
        TiltEntry { row: 1, col: 4, label: "E", placement: Placement { tilt: Tilt::Clockwise, offset_x: 0, offset_y: 3 } },
        TiltEntry { row: 1, col: 5, label: "R", placement: Placement { tilt: Tilt::Clockwise, offset_x: 0, offset_y: 11 } },
        TiltEntry { row: 1, col: 6, label: "T", placement: Placement { tilt: Tilt::Clockwise, offset_x: 0, offset_y: 19 } },
        TiltEntry { row: 1, col: 7, label: "Y", placement: Placement { tilt: Tilt::CounterClockwise, offset_x: 7, offset_y: 22 } },
        TiltEntry { row: 1, col: 8, label: "U", placement: Placement { tilt: Tilt::CounterClockwise, offset_x: 7, offset_y: 14 } },
        TiltEntry { row: 1, col: 9, label: "I", placement: Placement { tilt: Tilt::CounterClockwise, offset_x: 7, offset_y: 6 } },
        TiltEntry { row: 1, col: 10, label: "O", placement: Placement { tilt: Tilt::CounterClockwise, offset_x: 7, offset_y: -2i32 } },
        TiltEntry { row: 1, col: 11, label: "P", placement: Placement { tilt: Tilt::Level, offset_x: 0, offset_y: -8i32 } },
        TiltEntry { row: 1, col: 12, label: "{[", placement: Placement { tilt: Tilt::Level, offset_x: 0, offset_y: 0 } },
        TiltEntry { row: 1, col: 13, label: "}]", placement: Placement { tilt: Tilt::Level, offset_x: 0, offset_y: 0 } },
        TiltEntry { row: 1, col: 14, label: "|\\", placement: Placement { tilt: Tilt::Level, offset_x: 0, offset_y: 0 } },
        TiltEntry { row: 2, col: 0, label: "Esc", placement: Placement { tilt: Tilt::Level, offset_x: 0, offset_y: 0 } },
        TiltEntry { row: 2, col: 1, label: "Caps\nLock", placement: Placement { tilt: Tilt::Level, offset_x: 0, offset_y: 0 } },
        TiltEntry { row: 2, col: 2, label: "A", placement: Placement { tilt: Tilt::Level, offset_x: 0, offset_y: 0 } },
        TiltEntry { row: 2, col: 3, label: "S", placement: Placement { tilt: Tilt::Clockwise, offset_x: 0, offset_y: -3i32 } },
        TiltEntry { row: 2, col: 4, label: "D", placement: Placement { tilt: Tilt::Clockwise, offset_x: 0, offset_y: 5 } },
        TiltEntry { row: 2, col: 5, label: "F", placement: Placement { tilt: Tilt::Clockwise, offset_x: 0, offset_y: 13 } },
        TiltEntry { row: 2, col: 6, label: "G", placement: Placement { tilt: Tilt::Clockwise, offset_x: 0, offset_y: 21 } },
        TiltEntry { row: 2, col: 7, label: "H", placement: Placement { tilt: Tilt::CounterClockwise, offset_x: 6, offset_y: 21 } },
        TiltEntry { row: 2, col: 8, label: "J", placement: Placement { tilt: Tilt::CounterClockwise, offset_x: 6, offset_y: 13 } },
        TiltEntry { row: 2, col: 9, label: "K", placement: Placement { tilt: Tilt::CounterClockwise, offset_x: 6, offset_y: 5 } },
        TiltEntry { row: 2, col: 10, label: "L", placement: Placement { tilt: Tilt::CounterClockwise, offset_x: 6, offset_y: -3i32 } },
        TiltEntry { row: 2, col: 11, label: ";:", placement: Placement { tilt: Tilt::Level, offset_x: 0, offset_y: 0 } },
        TiltEntry { row: 2, col: 12, label: "'\"", placement: Placement { tilt: Tilt::Level, offset_x: 0, offset_y: 0 } },
        TiltEntry { row: 2, col: 13, label: "Enter", placement: Placement { tilt: Tilt::Level, offset_x: 0, offset_y: 0 } },
        TiltEntry { row: 3, col: 0, label: "Shift", placement: Placement { tilt: Tilt::Level, offset_x: 0, offset_y: 0 } },
        TiltEntry { row: 3, col: 1, label: "Z", placement: Placement { tilt: Tilt::Level, offset_x: 0, offset_y: 0 } },
        TiltEntry { row: 3, col: 2, label: "X", placement: Placement { tilt: Tilt::Clockwise, offset_x: 0, offset_y: 1 } },
        TiltEntry { row: 3, col: 3, label: "C", placement: Placement { tilt: Tilt::Clockwise, offset_x: 0, offset_y: 9 } },
        TiltEntry { row: 3, col: 4, label: "V", placement: Placement { tilt: Tilt::Clockwise, offset_x: 0, offset_y: 17 } },
        TiltEntry { row: 3, col: 5, label: "B1", placement: Placement { tilt: Tilt::Clockwise, offset_x: 0, offset_y: 25 } },
        TiltEntry { row: 3, col: 6, label: "B2", placement: Placement { tilt: Tilt::CounterClockwise, offset_x: 0, offset_y: 25 } },
        TiltEntry { row: 3, col: 7, label: "N", placement: Placement { tilt: Tilt::CounterClockwise, offset_x: 0, offset_y: 17 } },
        TiltEntry { row: 3, col: 8, label: "M", placement: Placement { tilt: Tilt::CounterClockwise, offset_x: 0, offset_y: 9 } },
        TiltEntry { row: 3, col: 9, label: ",<", placement: Placement { tilt: Tilt::CounterClockwise, offset_x: 0, offset_y: 1 } },
        TiltEntry { row: 3, col: 10, label: ".>", placement: Placement { tilt: Tilt::Level, offset_x: 0, offset_y: 0 } },
        TiltEntry { row: 3, col: 11, label: "/?", placement: Placement { tilt: Tilt::Level, offset_x: 0, offset_y: 0 } },
        TiltEntry { row: 3, col: 12, label: "↑", placement: Placement { tilt: Tilt::Level, offset_x: 0, offset_y: 0 } },
        TiltEntry { row: 3, col: 13, label: "Shift", placement: Placement { tilt: Tilt::Level, offset_x: 0, offset_y: 0 } },
        TiltEntry { row: 4, col: 0, label: "Ctrl", placement: Placement { tilt: Tilt::Level, offset_x: 0, offset_y: 0 } },
        TiltEntry { row: 4, col: 1, label: "Fn", placement: Placement { tilt: Tilt::Level, offset_x: 0, offset_y: 0 } },
        TiltEntry { row: 4, col: 2, label: "Cmd", placement: Placement { tilt: Tilt::Clockwise, offset_x: 9, offset_y: 7 } },
        TiltEntry { row: 4, col: 3, label: "Option", placement: Placement { tilt: Tilt::Clockwise, offset_x: 9, offset_y: 21 } },
        TiltEntry { row: 4, col: 4, label: " ", placement: Placement { tilt: Tilt::CounterClockwise, offset_x: -15i32, offset_y: 18 } },
        TiltEntry { row: 4, col: 5, label: "Win", placement: Placement { tilt: Tilt::CounterClockwise, offset_x: -15i32, offset_y: 1 } },
        TiltEntry { row: 4, col: 6, label: "←", placement: Placement { tilt: Tilt::Level, offset_x: 0, offset_y: 0 } },
        TiltEntry { row: 4, col: 7, label: "↓", placement: Placement { tilt: Tilt::Level, offset_x: 0, offset_y: 0 } },
        TiltEntry { row: 4, col: 8, label: "→", placement: Placement { tilt: Tilt::Level, offset_x: 0, offset_y: 0 } },
    ]
}

/// The tilt the split board gives a key by where it sits: the inner keys of
/// the left half lean clockwise, those of the right half counter-clockwise,
/// and the outer columns stand level.
pub open spec fn half_tilt(row: int, col: int) -> Tilt {
    if (row == 0 && 4 <= col <= 7) || (row == 1 && 3 <= col <= 6) || (row == 2 && 3 <= col <= 6)
        || (row == 3 && 2 <= col <= 5) || (row == 4 && 2 <= col <= 3) {
        Tilt::Clockwise
    } else if (row == 0 && 8 <= col <= 11) || (row == 1 && 7 <= col <= 10) || (row == 2 && 7 <= col
        <= 10) || (row == 3 && 6 <= col <= 9) || (row == 4 && 4 <= col <= 5) {
        Tilt::CounterClockwise
    } else {
        Tilt::Level
    }
}

/// Every key of the Alice configuration leans the way its half of the
/// board does: 3# to 6^, W to T, S to G, X to B1, Cmd and Option clockwise;
/// 7& to 0), Y to O, H to L, B2 to ,<, the space bar and Win
/// counter-clockwise; all others level.
#[verifier::rlimit(100)]
pub proof fn law_alice_halves_lean_apart()
    ensures
        forall|i: int|
            0 <= i < alice_rotation_entries().len() ==> (#[trigger] alice_rotation_entries()[i]).placement.tilt
                == half_tilt(alice_rotation_entries()[i].row as int, alice_rotation_entries()[i].col as int),
{
    let t = alice_rotation_entries();
    assert(t.len() == 67);
    assert forall|i: int| 0 <= i < t.len() implies (#[trigger] t[i]).placement.tilt == half_tilt(
        t[i].row as int,
        t[i].col as int,
    ) by {
        if i == 0 {
            assert(t[0].placement.tilt == half_tilt(t[0].row as int, t[0].col as int));
        } else if i == 1 {
            assert(t[1].placement.tilt == half_tilt(t[1].row as int, t[1].col as int));
        } else if i == 2 {
            assert(t[2].placement.tilt == half_tilt(t[2].row as int, t[2].col as int));
        } else if i == 3 {
            assert(t[3].placement.tilt == half_tilt(t[3].row as int, t[3].col as int));
        } else if i == 4 {
            assert(t[4].placement.tilt == half_tilt(t[4].row as int, t[4].col as int));
        } else if i == 5 {
            assert(t[5].placement.tilt == half_tilt(t[5].row as int, t[5].col as int));
        } else if i == 6 {
            assert(t[6].placement.tilt == half_tilt(t[6].row as int, t[6].col as int));
        } else if i == 7 {
            assert(t[7].placement.tilt == half_tilt(t[7].row as int, t[7].col as int));
        } else if i == 8 {
            assert(t[8].placement.tilt == half_tilt(t[8].row as int, t[8].col as int));
        } else if i == 9 {
            assert(t[9].placement.tilt == half_tilt(t[9].row as int, t[9].col as int));
        } else if i == 10 {
            assert(t[10].placement.tilt == half_tilt(t[10].row as int, t[10].col as int));
        } else if i == 11 {
            assert(t[11].placement.tilt == half_tilt(t[11].row as int, t[11].col as int));
        } else if i == 12 {
            assert(t[12].placement.tilt == half_tilt(t[12].row as int, t[12].col as int));
        } else if i == 13 {
            assert(t[13].placement.tilt == half_tilt(t[13].row as int, t[13].col as int));
        } else if i == 14 {
            assert(t[14].placement.tilt == half_tilt(t[14].row as int, t[14].col as int));
        } else if i == 15 {
            assert(t[15].placement.tilt == half_tilt(t[15].row as int, t[15].col as int));
        } else if i == 16 {
            assert(t[16].placement.tilt == half_tilt(t[16].row as int, t[16].col as int));
        } else if i == 17 {
            assert(t[17].placement.tilt == half_tilt(t[17].row as int, t[17].col as int));
        } else if i == 18 {
            assert(t[18].placement.tilt == half_tilt(t[18].row as int, t[18].col as int));
        } else if i == 19 {
            assert(t[19].placement.tilt == half_tilt(t[19].row as int, t[19].col as int));
        } else if i == 20 {
            assert(t[20].placement.tilt == half_tilt(t[20].row as int, t[20].col as int));
        } else if i == 21 {
            assert(t[21].placement.tilt == half_tilt(t[21].row as int, t[21].col as int));
        } else if i == 22 {
            assert(t[22].placement.tilt == half_tilt(t[22].row as int, t[22].col as int));
        } else if i == 23 {
            assert(t[23].placement.tilt == half_tilt(t[23].row as int, t[23].col as int));
        } else if i == 24 {
            assert(t[24].placement.tilt == half_tilt(t[24].row as int, t[24].col as int));
        } else if i == 25 {
            assert(t[25].placement.tilt == half_tilt(t[25].row as int, t[25].col as int));
        } else if i == 26 {
            assert(t[26].placement.tilt == half_tilt(t[26].row as int, t[26].col as int));
        } else if i == 27 {
            assert(t[27].placement.tilt == half_tilt(t[27].row as int, t[27].col as int));
        } else if i == 28 {
            assert(t[28].placement.tilt == half_tilt(t[28].row as int, t[28].col as int));
        } else if i == 29 {
            assert(t[29].placement.tilt == half_tilt(t[29].row as int, t[29].col as int));
        } else if i == 30 {
            assert(t[30].placement.tilt == half_tilt(t[30].row as int, t[30].col as int));
        } else if i == 31 {
            assert(t[31].placement.tilt == half_tilt(t[31].row as int, t[31].col as int));
        } else if i == 32 {
            assert(t[32].placement.tilt == half_tilt(t[32].row as int, t[32].col as int));
        } else if i == 33 {
            assert(t[33].placement.tilt == half_tilt(t[33].row as int, t[33].col as int));
        } else if i == 34 {
            assert(t[34].placement.tilt == half_tilt(t[34].row as int, t[34].col as int));
        } else if i == 35 {
            assert(t[35].placement.tilt == half_tilt(t[35].row as int, t[35].col as int));
        } else if i == 36 {
            assert(t[36].placement.tilt == half_tilt(t[36].row as int, t[36].col as int));
        } else if i == 37 {
            assert(t[37].placement.tilt == half_tilt(t[37].row as int, t[37].col as int));
        } else if i == 38 {
            assert(t[38].placement.tilt == half_tilt(t[38].row as int, t[38].col as int));
        } else if i == 39 {
            assert(t[39].placement.tilt == half_tilt(t[39].row as int, t[39].col as int));
        } else if i == 40 {
            assert(t[40].placement.tilt == half_tilt(t[40].row as int, t[40].col as int));
        } else if i == 41 {
            assert(t[41].placement.tilt == half_tilt(t[41].row as int, t[41].col as int));
        } else if i == 42 {
            assert(t[42].placement.tilt == half_tilt(t[42].row as int, t[42].col as int));
        } else if i == 43 {
            assert(t[43].placement.tilt == half_tilt(t[43].row as int, t[43].col as int));
        } else if i == 44 {
            assert(t[44].placement.tilt == half_tilt(t[44].row as int, t[44].col as int));
        } else if i == 45 {
            assert(t[45].placement.tilt == half_tilt(t[45].row as int, t[45].col as int));
        } else if i == 46 {
            assert(t[46].placement.tilt == half_tilt(t[46].row as int, t[46].col as int));
        } else if i == 47 {
            assert(t[47].placement.tilt == half_tilt(t[47].row as int, t[47].col as int));
        } else if i == 48 {
            assert(t[48].placement.tilt == half_tilt(t[48].row as int, t[48].col as int));
        } else if i == 49 {
            assert(t[49].placement.tilt == half_tilt(t[49].row as int, t[49].col as int));
        } else if i == 50 {
            assert(t[50].placement.tilt == half_tilt(t[50].row as int, t[50].col as int));
        } else if i == 51 {
            assert(t[51].placement.tilt == half_tilt(t[51].row as int, t[51].col as int));
        } else if i == 52 {
            assert(t[52].placement.tilt == half_tilt(t[52].row as int, t[52].col as int));
        } else if i == 53 {
            assert(t[53].placement.tilt == half_tilt(t[53].row as int, t[53].col as int));
        } else if i == 54 {
            assert(t[54].placement.tilt == half_tilt(t[54].row as int, t[54].col as int));
        } else if i == 55 {
            assert(t[55].placement.tilt == half_tilt(t[55].row as int, t[55].col as int));
        } else if i == 56 {
            assert(t[56].placement.tilt == half_tilt(t[56].row as int, t[56].col as int));
        } else if i == 57 {
            assert(t[57].placement.tilt == half_tilt(t[57].row as int, t[57].col as int));
        } else if i == 58 {
            assert(t[58].placement.tilt == half_tilt(t[58].row as int, t[58].col as int));
        } else if i == 59 {
            assert(t[59].placement.tilt == half_tilt(t[59].row as int, t[59].col as int));
        } else if i == 60 {
            assert(t[60].placement.tilt == half_tilt(t[60].row as int, t[60].col as int));
        } else if i == 61 {
            assert(t[61].placement.tilt == half_tilt(t[61].row as int, t[61].col as int));
        } else if i == 62 {
            assert(t[62].placement.tilt == half_tilt(t[62].row as int, t[62].col as int));
        } else if i == 63 {
            assert(t[63].placement.tilt == half_tilt(t[63].row as int, t[63].col as int));
        } else if i == 64 {
            assert(t[64].placement.tilt == half_tilt(t[64].row as int, t[64].col as int));
        } else if i == 65 {
            assert(t[65].placement.tilt == half_tilt(t[65].row as int, t[65].col as int));
        } else if i == 66 {
            assert(t[66].placement.tilt == half_tilt(t[66].row as int, t[66].col as int));
        }
    }
}

spec fn order_key(e: TiltEntry) -> int {
    e.row * 100 + e.col
}

#[verifier::rlimit(100)]
proof fn lemma_entries_ascend()
    ensures
        forall|i: int|
            0 <= i < alice_rotation_entries().len() - 1 ==> order_key(#[trigger] alice_rotation_entries()[i])
                < order_key(alice_rotation_entries()[i + 1]),
{
    let t = alice_rotation_entries();
    assert(t.len() == 67);
    assert forall|i: int| 0 <= i < t.len() - 1 implies order_key(#[trigger] t[i]) < order_key(t[i + 1]) by {
        if i == 0 {
            assert(order_key(t[0]) < order_key(t[1]));
        } else if i == 1 {
            assert(order_key(t[1]) < order_key(t[2]));
        } else if i == 2 {
            assert(order_key(t[2]) < order_key(t[3]));
        } else if i == 3 {
            assert(order_key(t[3]) < order_key(t[4]));
        } else if i == 4 {
            assert(order_key(t[4]) < order_key(t[5]));
        } else if i == 5 {
            assert(order_key(t[5]) < order_key(t[6]));
        } else if i == 6 {
            assert(order_key(t[6]) < order_key(t[7]));
        } else if i == 7 {
            assert(order_key(t[7]) < order_key(t[8]));
        } else if i == 8 {
            assert(order_key(t[8]) < order_key(t[9]));
        } else if i == 9 {
            assert(order_key(t[9]) < order_key(t[10]));
        } else if i == 10 {
            assert(order_key(t[10]) < order_key(t[11]));
        } else if i == 11 {
            assert(order_key(t[11]) < order_key(t[12]));
        } else if i == 12 {
            assert(order_key(t[12]) < order_key(t[13]));
        } else if i == 13 {
            assert(order_key(t[13]) < order_key(t[14]));
        } else if i == 14 {
            assert(order_key(t[14]) < order_key(t[15]));
        } else if i == 15 {
            assert(order_key(t[15]) < order_key(t[16]));
        } else if i == 16 {
            assert(order_key(t[16]) < order_key(t[17]));
        } else if i == 17 {
            assert(order_key(t[17]) < order_key(t[18]));
        } else if i == 18 {
            assert(order_key(t[18]) < order_key(t[19]));
        } else if i == 19 {
            assert(order_key(t[19]) < order_key(t[20]));
        } else if i == 20 {
            assert(order_key(t[20]) < order_key(t[21]));
        } else if i == 21 {
            assert(order_key(t[21]) < order_key(t[22]));
        } else if i == 22 {
            assert(order_key(t[22]) < order_key(t[23]));
        } else if i == 23 {
            assert(order_key(t[23]) < order_key(t[24]));
        } else if i == 24 {
            assert(order_key(t[24]) < order_key(t[25]));
        } else if i == 25 {
            assert(order_key(t[25]) < order_key(t[26]));
        } else if i == 26 {
            assert(order_key(t[26]) < order_key(t[27]));
        } else if i == 27 {
            assert(order_key(t[27]) < order_key(t[28]));
        } else if i == 28 {
            assert(order_key(t[28]) < order_key(t[29]));
        } else if i == 29 {
            assert(order_key(t[29]) < order_key(t[30]));
        } else if i == 30 {
            assert(order_key(t[30]) < order_key(t[31]));
        } else if i == 31 {
            assert(order_key(t[31]) < order_key(t[32]));
        } else if i == 32 {
            assert(order_key(t[32]) < order_key(t[33]));
        } else if i == 33 {
            assert(order_key(t[33]) < order_key(t[34]));
        } else if i == 34 {
            assert(order_key(t[34]) < order_key(t[35]));
        } else if i == 35 {
            assert(order_key(t[35]) < order_key(t[36]));
        } else if i == 36 {
            assert(order_key(t[36]) < order_key(t[37]));
        } else if i == 37 {
            assert(order_key(t[37]) < order_key(t[38]));
        } else if i == 38 {
            assert(order_key(t[38]) < order_key(t[39]));
        } else if i == 39 {
            assert(order_key(t[39]) < order_key(t[40]));
        } else if i == 40 {
            assert(order_key(t[40]) < order_key(t[41]));
        } else if i == 41 {
            assert(order_key(t[41]) < order_key(t[42]));
        } else if i == 42 {
            assert(order_key(t[42]) < order_key(t[43]));
        } else if i == 43 {
            assert(order_key(t[43]) < order_key(t[44]));
        } else if i == 44 {
            assert(order_key(t[44]) < order_key(t[45]));
        } else if i == 45 {
            assert(order_key(t[45]) < order_key(t[46]));
        } else if i == 46 {
            assert(order_key(t[46]) < order_key(t[47]));
        } else if i == 47 {
            assert(order_key(t[47]) < order_key(t[48]));
        } else if i == 48 {
            assert(order_key(t[48]) < order_key(t[49]));
        } else if i == 49 {
            assert(order_key(t[49]) < order_key(t[50]));
        } else if i == 50 {
            assert(order_key(t[50]) < order_key(t[51]));
        } else if i == 51 {
            assert(order_key(t[51]) < order_key(t[52]));
        } else if i == 52 {
            assert(order_key(t[52]) < order_key(t[53]));
        } else if i == 53 {
            assert(order_key(t[53]) < order_key(t[54]));
        } else if i == 54 {
            assert(order_key(t[54]) < order_key(t[55]));
        } else if i == 55 {
            assert(order_key(t[55]) < order_key(t[56]));
        } else if i == 56 {
            assert(order_key(t[56]) < order_key(t[57]));
        } else if i == 57 {
            assert(order_key(t[57]) < order_key(t[58]));
        } else if i == 58 {
            assert(order_key(t[58]) < order_key(t[59]));
        } else if i == 59 {
            assert(order_key(t[59]) < order_key(t[60]));
        } else if i == 60 {
            assert(order_key(t[60]) < order_key(t[61]));
        } else if i == 61 {
            assert(order_key(t[61]) < order_key(t[62]));
        } else if i == 62 {
            assert(order_key(t[62]) < order_key(t[63]));
        } else if i == 63 {
            assert(order_key(t[63]) < order_key(t[64]));
        } else if i == 64 {
            assert(order_key(t[64]) < order_key(t[65]));
        } else if i == 65 {
            assert(order_key(t[65]) < order_key(t[66]));
        }
    }
}

proof fn lemma_ascending_distinct(t: Seq<TiltEntry>, i: int, j: int)
    requires
        forall|k: int| 0 <= k < t.len() - 1 ==> order_key(#[trigger] t[k]) < order_key(t[k + 1]),
        0 <= i < j < t.len(),
    ensures
        order_key(t[i]) < order_key(t[j]),
    decreases j - i,
{
    if j > i + 1 {
        lemma_ascending_distinct(t, i, j - 1);
        assert(order_key(t[j - 1]) < order_key(t[j]));
    }
}

/// Looking up any key of the Alice configuration by its row, column and
/// label gives that entry's placement: no two entries share a row and
/// column. In particular the right-hand Win key leans counter-clockwise,
/// shifted 15 left and 1 down.
pub proof fn law_alice_lookup_gives_entry()
    ensures
        forall|i: int|
            0 <= i < alice_rotation_entries().len() ==> alice_placement(
                (#[trigger] alice_rotation_entries()[i]).row as int,
                alice_rotation_entries()[i].col as int,
                alice_rotation_entries()[i].label@,
            ) == alice_rotation_entries()[i].placement,
        forall|i: int|
            0 <= i < alice_rotation_entries().len() ==> alice_placement(
                (#[trigger] alice_rotation_entries()[i]).row as int,
                alice_rotation_entries()[i].col as int,
                alice_rotation_entries()[i].label@,
            ).tilt == half_tilt(alice_rotation_entries()[i].row as int, alice_rotation_entries()[i].col as int),
        alice_placement(4, 5, "Win"@) == (Placement { tilt: Tilt::CounterClockwise, offset_x: -15i32, offset_y: 1 }),
{
    let t = alice_rotation_entries();
    lemma_entries_ascend();
    law_alice_halves_lean_apart();
    assert forall|i: int| 0 <= i < t.len() implies alice_placement(
        (#[trigger] t[i]).row as int,
        t[i].col as int,
        t[i].label@,
    ) == t[i].placement by {
        assert forall|l: int| i < l < t.len() implies entry_key(#[trigger] t[l]) != entry_key(t[i]) by {
            lemma_ascending_distinct(t, i, l);
        }
        lemma_last_match(t, i, entry_key(t[i]));
    }
    assert(t[63].row == 4 && t[63].col == 5 && t[63].label == "Win");
    assert(alice_placement(t[63].row as int, t[63].col as int, t[63].label@) == t[63].placement);
}

/// Placement of the Alice key at `row`, `col` with `label`.
pub open spec fn alice_placement(row: int, col: int, label: Seq<char>) -> Placement {
    placement_in(tilt_config(alice_rotation_entries()), row, col, label)
}

/// The Alice rotation configuration.
pub fn get_alice_rotation_config() -> (t: Vec<TiltEntry>)
    ensures
        t@ == alice_rotation_entries(),
{
    let t = vec![
        TiltEntry { row: 0, col: 0, label: "Esc", placement: Placement { tilt: Tilt::Level, offset_x: 0, offset_y: 0 } },
        TiltEntry { row: 0, col: 1, label: "~`", placement: Placement { tilt: Tilt::Level, offset_x: 0, offset_y: 0 } },
        TiltEntry { row: 0, col: 2, label: "1!", placement: Placement { tilt: Tilt::Level, offset_x: 0, offset_y: 0 } },
        TiltEntry { row: 0, col: 3, label: "2@", placement: Placement { tilt: Tilt::Level, offset_x: 0, offset_y: -10i32 } },
        TiltEntry { row: 0, col: 4, label: "3#", placement: Placement { tilt: Tilt::Clockwise, offset_x: -10i32, offset_y: 0 } },
        TiltEntry { row: 0, col: 5, label: "4$", placement: Placement { tilt: Tilt::Clockwise, offset_x: -10i32, offset_y: 8 } },
        TiltEntry { row: 0, col: 6, label: "5%", placement: Placement { tilt: Tilt::Clockwise, offset_x: -10i32, offset_y: 16 } },
        TiltEntry { row: 0, col: 7, label: "6^", placement: Placement { tilt: Tilt::Clockwise, offset_x: -10i32, offset_y: 24 } },
        TiltEntry { row: 0, col: 8, label: "7&", placement: Placement { tilt: Tilt::CounterClockwise, offset_x: 10, offset_y: 19 } },
        TiltEntry { row: 0, col: 9, label: "8*", placement: Placement { tilt: Tilt::CounterClockwise, offset_x: 10, offset_y: 11 } },
        TiltEntry { row: 0, col: 10, label: "9(", placement: Placement { tilt: Tilt::CounterClockwise, offset_x: 10, offset_y: 3 } },
        TiltEntry { row: 0, col: 11, label: "0)", placement: Placement { tilt: Tilt::CounterClockwise, offset_x: 10, offset_y: -5i32 } },
        TiltEntry { row: 0, col: 12, label: "_-", placement: Placement { tilt: Tilt::Level, offset_x: 0, offset_y: -10i32 } },
        TiltEntry { row: 0, col: 13, label: "=+", placement: Placement { tilt: Tilt::Level, offset_x: 0, offset_y: 0 } },
        TiltEntry { row: 0, col: 14, label: "Back", placement: Placement { tilt: Tilt::Level, offset_x: 0, offset_y: 0 } },
        TiltEntry { row: 1, col: 0, label: "Esc", placement: Placement { tilt: Tilt::Level, offset_x: 0, offset_y: 0 } },
        TiltEntry { row: 1, col: 1, label: "Tab", placement: Placement { tilt: Tilt::Level, offset_x: 0, offset_y: 0 } },
        TiltEntry { row: 1, col: 2, label: "Q", placement: Placement { tilt: Tilt::Level, offset_x: 0, offset_y: 0 } },
        TiltEntry { row: 1, col: 3, label: "W", placement: Placement { tilt: Tilt::Clockwise, offset_x: 0, offset_y: -5i32 } },
        TiltEntry { row: 1, col: 4, label: "E", placement: Placement { tilt: Tilt::Clockwise, offset_x: 0, offset_y: 3 } },
        TiltEntry { row: 1, col: 5, label: "R", placement: Placement { tilt: Tilt::Clockwise, offset_x: 0, offset_y: 11 } },
        TiltEntry { row: 1, col: 6, label: "T", placement: Placement { tilt: Tilt::Clockwise, offset_x: 0, offset_y: 19 } },
        TiltEntry { row: 1, col: 7, label: "Y", placement: Placement { tilt: Tilt::CounterClockwise, offset_x: 7, offset_y: 22 } },
        TiltEntry { row: 1, col: 8, label: "U", placement: Placement { tilt: Tilt::CounterClockwise, offset_x: 7, offset_y: 14 } },
        TiltEntry { row: 1, col: 9, label: "I", placement: Placement { tilt: Tilt::CounterClockwise, offset_x: 7, offset_y: 6 } },
        TiltEntry { row: 1, col: 10, label: "O", placement: Placement { tilt: Tilt::CounterClockwise, offset_x: 7, offset_y: -2i32 } },
        TiltEntry { row: 1, col: 11, label: "P", placement: Placement { tilt: Tilt::Level, offset_x: 0, offset_y: -8i32 } },
        TiltEntry { row: 1, col: 12, label: "{[", placement: Placement { tilt: Tilt::Level, offset_x: 0, offset_y: 0 } },
        TiltEntry { row: 1, col: 13, label: "}]", placement: Placement { tilt: Tilt::Level, offset_x: 0, offset_y: 0 } },
        TiltEntry { row: 1, col: 14, label: "|\\", placement: Placement { tilt: Tilt::Level, offset_x: 0, offset_y: 0 } },
        TiltEntry { row: 2, col: 0, label: "Esc", placement: Placement { tilt: Tilt::Level, offset_x: 0, offset_y: 0 } },
        TiltEntry { row: 2, col: 1, label: "Caps\nLock", placement: Placement { tilt: Tilt::Level, offset_x: 0, offset_y: 0 } },
        TiltEntry { row: 2, col: 2, label: "A", placement: Placement { tilt: Tilt::Level, offset_x: 0, offset_y: 0 } },
        TiltEntry { row: 2, col: 3, label: "S", placement: Placement { tilt: Tilt::Clockwise, offset_x: 0, offset_y: -3i32 } },
        TiltEntry { row: 2, col: 4, label: "D", placement: Placement { tilt: Tilt::Clockwise, offset_x: 0, offset_y: 5 } },
        TiltEntry { row: 2, col: 5, label: "F", placement: Placement { tilt: Tilt::Clockwise, offset_x: 0, offset_y: 13 } },
        TiltEntry { row: 2, col: 6, label: "G", placement: Placement { tilt: Tilt::Clockwise, offset_x: 0, offset_y: 21 } },
        TiltEntry { row: 2, col: 7, label: "H", placement: Placement { tilt: Tilt::CounterClockwise, offset_x: 6, offset_y: 21 } },
        TiltEntry { row: 2, col: 8, label: "J", placement: Placement { tilt: Tilt::CounterClockwise, offset_x: 6, offset_y: 13 } },
        TiltEntry { row: 2, col: 9, label: "K", placement: Placement { tilt: Tilt::CounterClockwise, offset_x: 6, offset_y: 5 } },
        TiltEntry { row: 2, col: 10, label: "L", placement: Placement { tilt: Tilt::CounterClockwise, offset_x: 6, offset_y: -3i32 } },
        TiltEntry { row: 2, col: 11, label: ";:", placement: Placement { tilt: Tilt::Level, offset_x: 0, offset_y: 0 } },
        TiltEntry { row: 2, col: 12, label: "'\"", placement: Placement { tilt: Tilt::Level, offset_x: 0, offset_y: 0 } },
        TiltEntry { row: 2, col: 13, label: "Enter", placement: Placement { tilt: Tilt::Level, offset_x: 0, offset_y: 0 } },
        TiltEntry { row: 3, col: 0, label: "Shift", placement: Placement { tilt: Tilt::Level, offset_x: 0, offset_y: 0 } },
        TiltEntry { row: 3, col: 1, label: "Z", placement: Placement { tilt: Tilt::Level, offset_x: 0, offset_y: 0 } },
        TiltEntry { row: 3, col: 2, label: "X", placement: Placement { tilt: Tilt::Clockwise, offset_x: 0, offset_y: 1 } },
        TiltEntry { row: 3, col: 3, label: "C", placement: Placement { tilt: Tilt::Clockwise, offset_x: 0, offset_y: 9 } },
        TiltEntry { row: 3, col: 4, label: "V", placement: Placement { tilt: Tilt::Clockwise, offset_x: 0, offset_y: 17 } },
        TiltEntry { row: 3, col: 5, label: "B1", placement: Placement { tilt: Tilt::Clockwise, offset_x: 0, offset_y: 25 } },
        TiltEntry { row: 3, col: 6, label: "B2", placement: Placement { tilt: Tilt::CounterClockwise, offset_x: 0, offset_y: 25 } },
        TiltEntry { row: 3, col: 7, label: "N", placement: Placement { tilt: Tilt::CounterClockwise, offset_x: 0, offset_y: 17 } },
        TiltEntry { row: 3, col: 8, label: "M", placement: Placement { tilt: Tilt::CounterClockwise, offset_x: 0, offset_y: 9 } },
        TiltEntry { row: 3, col: 9, label: ",<", placement: Placement { tilt: Tilt::CounterClockwise, offset_x: 0, offset_y: 1 } },
        TiltEntry { row: 3, col: 10, label: ".>", placement: Placement { tilt: Tilt::Level, offset_x: 0, offset_y: 0 } },
        TiltEntry { row: 3, col: 11, label: "/?", placement: Placement { tilt: Tilt::Level, offset_x: 0, offset_y: 0 } },
        TiltEntry { row: 3, col: 12, label: "↑", placement: Placement { tilt: Tilt::Level, offset_x: 0, offset_y: 0 } },
        TiltEntry { row: 3, col: 13, label: "Shift", placement: Placement { tilt: Tilt::Level, offset_x: 0, offset_y: 0 } },
        TiltEntry { row: 4, col: 0, label: "Ctrl", placement: Placement { tilt: Tilt::Level, offset_x: 0, offset_y: 0 } },
        TiltEntry { row: 4, col: 1, label: "Fn", placement: Placement { tilt: Tilt::Level, offset_x: 0, offset_y: 0 } },
        TiltEntry { row: 4, col: 2, label: "Cmd", placement: Placement { tilt: Tilt::Clockwise, offset_x: 9, offset_y: 7 } },
        TiltEntry { row: 4, col: 3, label: "Option", placement: Placement { tilt: Tilt::Clockwise, offset_x: 9, offset_y: 21 } },
        TiltEntry { row: 4, col: 4, label: " ", placement: Placement { tilt: Tilt::CounterClockwise, offset_x: -15i32, offset_y: 18 } },
        TiltEntry { row: 4, col: 5, label: "Win", placement: Placement { tilt: Tilt::CounterClockwise, offset_x: -15i32, offset_y: 1 } },
        TiltEntry { row: 4, col: 6, label: "←", placement: Placement { tilt: Tilt::Level, offset_x: 0, offset_y: 0 } },
        TiltEntry { row: 4, col: 7, label: "↓", placement: Placement { tilt: Tilt::Level, offset_x: 0, offset_y: 0 } },
        TiltEntry { row: 4, col: 8, label: "→", placement: Placement { tilt: Tilt::Level, offset_x: 0, offset_y: 0 } },
    ];
    assert(t@ =~= alice_rotation_entries());
    t
}

proof fn lemma_last_match(t: Seq<TiltEntry>, j: int, k: (int, int, Seq<char>))
    requires
        0 <= j < t.len(),
        entry_key(t[j]) == k,
        forall|l: int| j < l < t.len() ==> entry_key(#[trigger] t[l]) != k,
    ensures
        tilt_config(t).contains_key(k),
        tilt_config(t)[k] == t[j].placement,
    decreases t.len(),
{
    if j < t.len() - 1 {
        let s = t.drop_last();
        assert forall|l: int| j < l < s.len() implies entry_key(#[trigger] s[l]) != k by {
            assert(s[l] == t[l]);
        }
        lemma_last_match(s, j, k);
        assert(entry_key(t[t.len() - 1]) != k);
    }
}

proof fn lemma_no_match(t: Seq<TiltEntry>, k: (int, int, Seq<char>))
    requires
        forall|l: int| 0 <= l < t.len() ==> entry_key(#[trigger] t[l]) != k,
    ensures
        !tilt_config(t).contains_key(k),
    decreases t.len(),
{
    if t.len() > 0 {
        let s = t.drop_last();
        assert forall|l: int| 0 <= l < s.len() implies entry_key(#[trigger] s[l]) != k by {
            assert(s[l] == t[l]);
        }
        lemma_no_match(s, k);
        assert(entry_key(t[t.len() - 1]) != k);
    }
}

/// Looks a key up in a configuration the way a map filled from `config`
/// answers: the last entry stored under the key, or an untilted, unshifted
/// key when there is none.
pub fn lookup_placement(config: &Vec<TiltEntry>, row: usize, col: usize, label: &str) -> (p: Placement)
    ensures
        p == placement_in(tilt_config(config@), row as int, col as int, label@),
{
    let ghost k = (row as int, col as int, label@);
    let mut i = config.len();
    while i > 0
        invariant
            i <= config@.len(),
            k == (row as int, col as int, label@),
            forall|l: int| i <= l < config@.len() ==> entry_key(#[trigger] config@[l]) != k,
        decreases i,
    {
        i = i - 1;
        let e = config[i];
        if e.row == row && e.col == col && str_eq(e.label, label) {
            proof {
                lemma_last_match(config@, i as int, k);
            }
            return e.placement;
        }
    }
    proof {
        lemma_no_match(config@, k);
    }
    Placement { tilt: Tilt::Level, offset_x: 0, offset_y: 0 }
}

/// Width of the gap after a key of the Alice board: the gaps split the
/// board into its halves and separate the outer columns.
pub open spec fn alice_gap(row: int, label: Seq<char>, key: Key) -> u32 {
    if row == 0 {
        if key == Key::Num2 || key == Key::Num6 || key == Key::Num0 {
            8
        } else {
            0
        }
    } else if row == 1 {
        if key == Key::KeyQ || key == Key::KeyO {
            8
        } else if key == Key::KeyT {
            35
        } else {
            0
        }
    } else if row == 2 {
        if key == Key::KeyA || key == Key::KeyL {
            8
        } else if key == Key::KeyG {
            50
        } else {
            0
        }
    } else if row == 3 {
        if key == Key::KeyZ {
            8
        } else if label == "B1"@ {
            10
        } else {
            0
        }
    } else {
        0
    }
}

/// Computes `alice_gap`.
pub fn alice_gap_for(row: usize, label: &str, key: Key) -> (g: u32)
    ensures
        g == alice_gap(row as int, label@, key),
{
    if row == 0 {
        if key == Key::Num2 || key == Key::Num6 || key == Key::Num0 {
            8
        } else {
            0
        }
    } else if row == 1 {
        if key == Key::KeyQ || key == Key::KeyO {
            8
        } else if key == Key::KeyT {
            35
        } else {
            0
        }
    } else if row == 2 {
        if key == Key::KeyA || key == Key::KeyL {
            8
        } else if key == Key::KeyG {
            50
        } else {
            0
        }
    } else if row == 3 {
        if key == Key::KeyZ {
            8
        } else if str_eq(label, "B1") {
            10
        } else {
            0
        }
    } else {
        0
    }
}

} // verus!
