//! Painting tiles into a level text. The pointer position is turned into a
//! (row, column) cell elsewhere; this decides what the cell becomes.
use vstd::prelude::*;

verus! {

/// The character that erases a cell.
pub const ERASE_TILE: char = '.';

/// The character a stroke writes: `.` for the eraser, else the selected tile.
pub open spec fn stroke_char(erase: bool, selected: char) -> char {
    if erase {
        ERASE_TILE
    } else {
        selected
    }
}

/// The cell (`row`, `col`) exists in `lines`.
pub open spec fn cell_exists(lines: Seq<Seq<char>>, row: int, col: int) -> bool {
    0 <= row < lines.len() && 0 <= col < lines[row].len()
}

/// Paints one cell of a level text held as lines of characters: a primary
/// stroke writes `selected`, an erasing stroke writes `.`. A cell outside the
/// text, or one that already holds that character, is left alone. Returns
/// whether the text changed (and must be reloaded).
pub fn paint_tile(lines: &mut Vec<Vec<char>>, row: i32, col: i32, erase: bool, selected: char) -> (changed:
    bool)
    ensures
        changed == (cell_exists(old(lines)@.map_values(|l: Vec<char>| l@), row as int, col as int)
            && old(lines)@[row as int]@[col as int] != stroke_char(erase, selected)),
        final(lines)@.len() == old(lines)@.len(),
        forall|r: int|
            0 <= r < old(lines)@.len() ==> (#[trigger] final(lines)@[r])@ == (if changed && r
                == row {
                old(lines)@[r]@.update(col as int, stroke_char(erase, selected))
            } else {
                old(lines)@[r]@
            }),
{
    if row < 0 || col < 0 {
        return false;
    }
    let r = row as usize;
    let c = col as usize;
    if r >= lines.len() {
        return false;
    }
    if c >= lines[r].len() {
        return false;
    }
    let paint = if erase {
        ERASE_TILE
    } else {
        selected
    };
    if lines[r][c] == paint {
        return false;
    }
    let old_line: &Vec<char> = &lines[r];
    let mut line: Vec<char> = Vec::new();
    let mut i: usize = 0;
    while i < old_line.len()
        invariant
            i <= old_line@.len(),
            c < old_line@.len(),
            i > c ==> line@ == old_line@.take(i as int).update(c as int, paint),
            i <= c ==> line@ == old_line@.take(i as int),
        decreases old_line@.len() - i,
    {
        if i == c {
            line.push(paint);
        } else {
            line.push(old_line[i]);
        }
        i = i + 1;
    }
    assert(old_line@.take(old_line@.len() as int) =~= old_line@);
    lines.set(r, line);
    true
}

} // verus!
