use crate::error::DeviceError;
use vstd::prelude::*;

verus! {

/// The number of rows of the display.
pub const DISPLAY_ROWS: u8 = 2;

/// The number of characters in a row of the display.
pub const DISPLAY_COLUMNS: u8 = 16;

/// A row of the display with nothing on it.
pub open spec fn blank_row() -> Seq<char> {
    Seq::new(DISPLAY_COLUMNS as nat, |i: int| ' ')
}

/// A display with nothing on it.
pub open spec fn blank_rows() -> Seq<Seq<char>> {
    Seq::new(DISPLAY_ROWS as nat, |r: int| blank_row())
}

/// A text as one row shows it: cut off after the last column, and filled
/// up with spaces.
pub open spec fn fit_to_row(text: Seq<char>) -> Seq<char> {
    Seq::new(
        DISPLAY_COLUMNS as nat,
        |i: int|
            if i < text.len() {
                text[i]
            } else {
                ' '
            },
    )
}

/// A display of two rows of sixteen characters.
pub trait DeviceDisplay {
    /// The characters on the display, row by row.
    spec fn rows(&self) -> Seq<Seq<char>>;

    /// The display carries out every call that asks for something it has.
    /// It holds of a display in memory, and of no hardware.
    spec fn never_fails(&self) -> bool;

    /// Makes the display ready for use.
    fn init(&mut self) -> (r: Result<(), DeviceError>)
        ensures
            old(self).never_fails() ==> r is Ok,
            r is Ok ==> final(self).rows() == old(self).rows(),
            final(self).never_fails() == old(self).never_fails(),
    ;

    /// Takes all text off the display.
    fn clear(&mut self) -> (r: Result<(), DeviceError>)
        ensures
            old(self).never_fails() ==> r is Ok,
            r is Ok ==> final(self).rows() == blank_rows(),
            final(self).never_fails() == old(self).never_fails(),
    ;

    /// Puts a text on one row, in place of what was there. Rows are counted
    /// from 0; a row that the display does not have is an error.
    fn write_line(&mut self, line: u8, text: &str) -> (r: Result<(), DeviceError>)
        ensures
            line >= DISPLAY_ROWS ==> r is Err && final(self).rows() == old(self).rows(),
            old(self).never_fails() && line < DISPLAY_ROWS ==> r is Ok,
            r is Ok ==> final(self).rows() == old(self).rows().update(
                line as int,
                fit_to_row(text@),
            ),
            final(self).never_fails() == old(self).never_fails(),
    ;

    /// The number of rows.
    fn num_lines(&self) -> (n: u8)
        ensures
            n == DISPLAY_ROWS,
    {
        DISPLAY_ROWS
    }

    /// The number of characters in a row.
    fn chars_per_line(&self) -> (n: u8)
        ensures
            n == DISPLAY_COLUMNS,
    {
        DISPLAY_COLUMNS
    }

    /// Switches the light behind the text. The text stays.
    fn set_backlight(&mut self, on: bool) -> (r: Result<(), DeviceError>)
        ensures
            old(self).never_fails() ==> r is Ok,
            final(self).rows() == old(self).rows(),
            final(self).never_fails() == old(self).never_fails(),
    ;

    /// Moves the cursor. A place that the display does not have is an
    /// error. The text stays.
    fn set_cursor(&mut self, column: u8, row: u8) -> (r: Result<(), DeviceError>)
        ensures
            row >= DISPLAY_ROWS || column >= DISPLAY_COLUMNS ==> r is Err,
            old(self).never_fails() && row < DISPLAY_ROWS && column < DISPLAY_COLUMNS ==> r is Ok,
            final(self).rows() == old(self).rows(),
            final(self).never_fails() == old(self).never_fails(),
    ;

    /// Stores the shape of a character of the display's own. The text stays.
    fn create_char(&mut self, location: u8, char_map: [u8; 8]) -> (r: Result<(), DeviceError>)
        ensures
            old(self).never_fails() ==> r is Ok,
            final(self).rows() == old(self).rows(),
            final(self).never_fails() == old(self).never_fails(),
    ;
}

} // verus!
