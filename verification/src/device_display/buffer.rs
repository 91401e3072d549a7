use crate::device_display::interface::{blank_rows, fit_to_row, DISPLAY_COLUMNS, DISPLAY_ROWS};
use crate::error::DeviceError;
use vstd::prelude::*;

verus! {

/// The text of a display, held in memory, and whether its light is on.
#[derive(Clone, Copy, Debug, PartialEq, Eq)]
pub struct DisplayBuffer {
    rows: [[char; 16]; 2],
    backlight_on: bool,
}

/// A text as one row of the display holds it.
pub fn row_of_text(text: &str) -> (row: [char; 16])
    ensures
        row@ == fit_to_row(text@),
{
    let mut row: [char; 16] = [' ';16];
    let len = text.unicode_len();
    let mut i: usize = 0;
    while i < 16 && i < len
        invariant
            i <= 16,
            i <= len,
            len == text@.len(),
            row@.len() == 16,
            forall|k: int| 0 <= k < i ==> row@[k] == text@[k],
            forall|k: int| i <= k < 16 ==> row@[k] == ' ',
        decreases 16 - i,
    {
        let c = text.get_char(i);
        row[i] = c;
        i += 1;
    }
    row
}

impl DisplayBuffer {
    /// The characters held, row by row.
    pub closed spec fn rows(&self) -> Seq<Seq<char>> {
        Seq::new(DISPLAY_ROWS as nat, |r: int| self.rows@[r]@)
    }

    /// The light is on.
    pub closed spec fn is_lit(&self) -> bool {
        self.backlight_on
    }

    /// A buffer always holds two rows of sixteen characters.
    pub proof fn lemma_shape(&self)
        ensures
            self.rows().len() == DISPLAY_ROWS,
            forall|r: int| 0 <= r < DISPLAY_ROWS ==> (#[trigger] self.rows()[r]).len()
                == DISPLAY_COLUMNS,
    {
    }

    /// A buffer with no text, the light on.
    pub fn new() -> (b: DisplayBuffer)
        ensures
            b.rows() == blank_rows(),
            b.is_lit(),
    {
        let b = DisplayBuffer { rows: [[' ';16];2], backlight_on: true };
        assert(b.rows() =~~= blank_rows());
        b
    }

    /// Takes all text off.
    pub fn clear(&mut self)
        ensures
            final(self).rows() == blank_rows(),
            final(self).is_lit() == old(self).is_lit(),
    {
        self.rows = [[' ';16];2];
        assert(self.rows() =~~= blank_rows());
    }

    /// Puts a text on one row, in place of what was there: cut off after
    /// the sixteenth character, filled up with spaces. A row other than 0
    /// and 1 is an error, and leaves the buffer as it is.
    pub fn write_line(&mut self, line: u8, text: &str) -> (r: Result<(), DeviceError>)
        ensures
            r is Err <==> line >= DISPLAY_ROWS,
            r is Ok ==> final(self).rows() == old(self).rows().update(
                line as int,
                fit_to_row(text@),
            ),
            r is Err ==> final(self).rows() == old(self).rows(),
            final(self).is_lit() == old(self).is_lit(),
    {
        if line >= 2 {
            return Err(DeviceError::new("Invalid line number"));
        }
        let row = row_of_text(text);
        self.rows[line as usize] = row;
        Ok(())
    }

    /// Switches the light. The text stays.
    pub fn set_backlight(&mut self, on: bool)
        ensures
            final(self).is_lit() == on,
            final(self).rows() == old(self).rows(),
    {
        self.backlight_on = on;
    }

    /// Checks a place for the cursor: an error unless the column is below
    /// sixteen and the row below two.
    pub fn set_cursor(&self, column: u8, row: u8) -> (r: Result<(), DeviceError>)
        ensures
            r is Err <==> (row >= DISPLAY_ROWS || column >= DISPLAY_COLUMNS),
    {
        if row >= 2 || column >= 16 {
            return Err(DeviceError::new("Invalid cursor position"));
        }
        Ok(())
    }

    /// Whether the light is on.
    pub fn backlight(&self) -> (on: bool)
        ensures
            on == self.is_lit(),
    {
        self.backlight_on
    }

    /// The sixteen characters of one row, as a text.
    pub fn row_text(&self, row: u8) -> (text: String)
        requires
            row < DISPLAY_ROWS,
        ensures
            text@ == self.rows()[row as int],
    {
        let mut text = String::new();
        let mut i: usize = 0;
        while i < 16
            invariant
                i <= 16,
                row < 2,
                text@ == self.rows@[row as int]@.take(i as int),
            decreases 16 - i,
        {
            text.push(self.rows[row as usize][i]);
            assert(self.rows@[row as int]@.take(i as int).push(self.rows@[row as int]@[i as int])
                =~= self.rows@[row as int]@.take(i + 1));
            i += 1;
        }
        text
    }
}

} // verus!
