use crate::device_display::buffer::DisplayBuffer;
use crate::device_display::interface::{blank_rows, DeviceDisplay};
use crate::error::DeviceError;
use vstd::prelude::*;

verus! {

/// A display that exists in memory only, for trying the controller out
/// without hardware.
#[derive(Clone, Copy, Debug, PartialEq, Eq)]
pub struct DeviceDisplayFake {
    buffer: DisplayBuffer,
}

impl DeviceDisplayFake {
    /// The light is on.
    pub closed spec fn is_lit(&self) -> bool {
        self.buffer.is_lit()
    }

    /// A display with no text, the light on.
    pub fn new() -> (d: DeviceDisplayFake)
        ensures
            d.rows() == blank_rows(),
            d.is_lit(),
    {
        DeviceDisplayFake { buffer: DisplayBuffer::new() }
    }

    /// What one row shows, for whoever tries the controller out.
    pub fn line(&self, row: u8) -> (text: String)
        requires
            row < 2,
        ensures
            text@ == self.rows()[row as int],
    {
        self.buffer.row_text(row)
    }

    /// Whether the light is on.
    pub fn backlight(&self) -> (on: bool)
        ensures
            on == self.is_lit(),
    {
        self.buffer.backlight()
    }
}

impl DeviceDisplay for DeviceDisplayFake {
    closed spec fn rows(&self) -> Seq<Seq<char>> {
        self.buffer.rows()
    }

    open spec fn never_fails(&self) -> bool {
        true
    }

    fn init(&mut self) -> (r: Result<(), DeviceError>)
        ensures
            r is Ok,
            final(self).is_lit() == old(self).is_lit(),
    {
        Ok(())
    }

    fn clear(&mut self) -> (r: Result<(), DeviceError>)
        ensures
            r is Ok,
            final(self).is_lit() == old(self).is_lit(),
    {
        self.buffer.clear();
        Ok(())
    }

    fn write_line(&mut self, line: u8, text: &str) -> (r: Result<(), DeviceError>)
        ensures
            r is Err <==> line >= 2,
            final(self).is_lit() == old(self).is_lit(),
    {
        self.buffer.write_line(line, text)
    }

    fn set_backlight(&mut self, on: bool) -> (r: Result<(), DeviceError>)
        ensures
            r is Ok,
            final(self).is_lit() == on,
    {
        self.buffer.set_backlight(on);
        Ok(())
    }

    fn set_cursor(&mut self, column: u8, row: u8) -> (r: Result<(), DeviceError>)
        ensures
            r is Err <==> (row >= 2 || column >= 16),
            final(self).is_lit() == old(self).is_lit(),
    {
        self.buffer.set_cursor(column, row)
    }

    fn create_char(&mut self, _location: u8, _char_map: [u8; 8]) -> (r: Result<(), DeviceError>)
        ensures
            r is Ok,
            final(self).is_lit() == old(self).is_lit(),
    {
        Ok(())
    }
}

} // verus!
