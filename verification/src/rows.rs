//! Logical-to-physical row addressing.
//!
//! The controller family addresses its two physical row drivers at DDRAM
//! bases 0 and 0x40 (the row-pair offset). A display with more visible rows
//! than row drivers folds the extra rows into the tail of each driver's
//! address range, so logical row 3 starts `chars_per_line` bytes into row 1's
//! range and logical row 4 the same distance into row 2's range.

use vstd::prelude::*;

verus! {

/// Fixed DDRAM address gap between the controller's two physical row drivers.
pub const ROW_PAIR_OFFSET: u8 = 0x40;

/// Longest line the controller's 80-byte DDRAM can hold per physical row.
pub const MAX_CHARS_PER_LINE: u8 = 40;

/// Declared geometry of a concrete display: how many characters one visible
/// line holds. The row bases are derived from this, not hard-coded per model.
pub struct DisplayGeometry {
    pub chars_per_line: u8,
}

/// A logical row of a display with up to four visible rows.
#[derive(Clone, Copy, PartialEq, Eq, Structural)]
pub enum LCDLineNumbers {
    Line1,
    Line2,
    Line3,
    Line4,
}

impl DisplayGeometry {
    /// A geometry is meaningful when a line holds at least one character and
    /// fits the controller's per-driver DDRAM range.
    pub open spec fn wf(self) -> bool {
        1 <= self.chars_per_line <= MAX_CHARS_PER_LINE
    }

    pub fn new(chars_per_line: u8) -> (g: DisplayGeometry)
        requires
            1 <= chars_per_line <= MAX_CHARS_PER_LINE,
        ensures
            g.wf(),
            g.chars_per_line == chars_per_line,
    {
        DisplayGeometry { chars_per_line }
    }

    /// DDRAM base address of a logical row under this geometry.
    pub open spec fn spec_row_base(self, row: LCDLineNumbers) -> u8 {
        match row {
            LCDLineNumbers::Line1 => 0,
            LCDLineNumbers::Line2 => ROW_PAIR_OFFSET,
            LCDLineNumbers::Line3 => self.chars_per_line,
            LCDLineNumbers::Line4 => (ROW_PAIR_OFFSET + self.chars_per_line) as u8,
        }
    }

    /// Maps a logical row to the DDRAM base address its first character
    /// occupies: rows 1 and 2 sit at the two physical driver bases, rows 3
    /// and 4 continue those drivers' ranges one line-width further in.
    pub fn row_base(&self, row: LCDLineNumbers) -> (base: u8)
        requires
            self.wf(),
        ensures
            base == self.spec_row_base(row),
            base < 0x80,
    {
        match row {
            LCDLineNumbers::Line1 => 0,
            LCDLineNumbers::Line2 => ROW_PAIR_OFFSET,
            LCDLineNumbers::Line3 => self.chars_per_line,
            LCDLineNumbers::Line4 => ROW_PAIR_OFFSET + self.chars_per_line,
        }
    }
}

impl LCDLineNumbers {
    /// DDRAM base address of this logical row on the 20-characters-per-line,
    /// four-row display this driver was built for.
    pub fn offset(self) -> (base: u8)
        ensures
            base == (DisplayGeometry { chars_per_line: 20 }).spec_row_base(self),
            (self is Line1) ==> base == 0,
            (self is Line2) ==> base == 0x40,
            (self is Line3) ==> base == 20,
            (self is Line4) ==> base == 0x54,
    {
        let geometry = DisplayGeometry::new(20);
        geometry.row_base(self)
    }
}

} // verus!
