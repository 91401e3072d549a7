use crate::device_display::buffer::DisplayBuffer;
use crate::device_display::interface::{blank_rows, DeviceDisplay};
use crate::error::DeviceError;
use vstd::prelude::*;
use vstd::string::StringExecFns;

verus! {

/// A display that is drawn on the console, as a box round its two rows.
#[derive(Clone, Copy, Debug, PartialEq, Eq)]
pub struct DeviceDisplayConsole {
    buffer: DisplayBuffer,
}

/// The upper edge of the box.
pub open spec fn top_border() -> Seq<char> {
    "┌────────────────┐"@
}

/// The lower edge of the box.
pub open spec fn bottom_border() -> Seq<char> {
    "└────────────────┘"@
}

/// One row between the sides of the box.
pub open spec fn framed(row: Seq<char>) -> Seq<char> {
    seq!['│'] + row + seq!['│']
}

/// The lines that draw a display with the given rows.
pub open spec fn drawing_of(rows: Seq<Seq<char>>) -> Seq<Seq<char>> {
    seq![top_border(), framed(rows[0]), framed(rows[1]), bottom_border()]
}

impl DeviceDisplayConsole {
    /// The light is on.
    pub closed spec fn is_lit(&self) -> bool {
        self.buffer.is_lit()
    }

    /// A display with no text, the light on.
    pub fn new() -> (d: DeviceDisplayConsole)
        ensures
            d.rows() == blank_rows(),
            d.is_lit(),
    {
        DeviceDisplayConsole { buffer: DisplayBuffer::new() }
    }

    /// The lines to print so that the console shows the display: the box
    /// with the two rows in it, or nothing while the light is off.
    pub fn render_display(&self) -> (lines: Vec<String>)
        ensures
            lines.deep_view() == if self.is_lit() {
                drawing_of(self.rows())
            } else {
                Seq::<Seq<char>>::empty()
            },
    {
        let mut lines: Vec<String> = Vec::new();
        proof {
            self.buffer.lemma_shape();
        }
        if !self.buffer.backlight() {
            return lines;
        }
        lines.push("┌────────────────┐".to_owned());
        let mut row: u8 = 0;
        while row < 2
            invariant
                row <= 2,
                lines@.len() == 1 + row,
                lines@[0]@ == top_border(),
                forall|r: int| 0 <= r < row ==> (#[trigger] lines@[1 + r])@ == framed(self.rows()[r]),
            decreases 2 - row,
        {
            let mut line = String::new();
            line.push('│');
            let text = self.buffer.row_text(row);
            line.append(text.as_str());
            line.push('│');
            lines.push(line);
            row += 1;
        }
        lines.push("└────────────────┘".to_owned());
        assert(lines@[1 + 0int]@ == framed(self.rows()[0]));
        assert(lines@[1 + 1int]@ == framed(self.rows()[1]));
        lines
    }
}

impl DeviceDisplay for DeviceDisplayConsole {
    closed spec fn rows(&self) -> Seq<Seq<char>> {
        self.buffer.rows()
    }

    open spec fn never_fails(&self) -> bool {
        true
    }

    fn init(&mut self) -> (r: Result<(), DeviceError>)
        ensures
            r is Ok,
            final(self).is_lit() == old(self).is_lit(),
    {
        Ok(())
    }

    fn clear(&mut self) -> (r: Result<(), DeviceError>)
        ensures
            r is Ok,
            final(self).is_lit() == old(self).is_lit(),
    {
        self.buffer.clear();
        Ok(())
    }

    fn write_line(&mut self, line: u8, text: &str) -> (r: Result<(), DeviceError>)
        ensures
            r is Err <==> line >= 2,
            final(self).is_lit() == old(self).is_lit(),
    {
        self.buffer.write_line(line, text)
    }

    fn set_backlight(&mut self, on: bool) -> (r: Result<(), DeviceError>)
        ensures
            r is Ok,
            final(self).is_lit() == on,
    {
        self.buffer.set_backlight(on);
        Ok(())
    }

    fn set_cursor(&mut self, column: u8, row: u8) -> (r: Result<(), DeviceError>)
        ensures
            r is Err <==> (row >= 2 || column >= 16),
            final(self).is_lit() == old(self).is_lit(),
    {
        self.buffer.set_cursor(column, row)
    }

    fn create_char(&mut self, _location: u8, _char_map: [u8; 8]) -> (r: Result<(), DeviceError>)
        ensures
            r is Ok,
            final(self).is_lit() == old(self).is_lit(),
    {
        Ok(())
    }
}

} // verus!
