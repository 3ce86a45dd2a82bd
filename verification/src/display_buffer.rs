//! The frame buffer of a simulated 256 x 64 greyscale display.
//!
//! Pixels hold 4-bit grey levels; the buffer stores one byte per pixel,
//! scaled to 0..=255 (level times 17), row by row.  Every change marks the
//! buffer for sending; only a send that succeeded clears the mark.

use vstd::prelude::*;

verus! {

/// Pixel columns.
pub const NUM_PIXEL_COLS: u16 = 256;
/// Pixel rows.
pub const NUM_PIXEL_ROWS: u8 = 64;
/// Bytes in the buffer.
pub const BUFFER_LEN: usize = 16384;

/// Which display of the simulator a buffer belongs to.
#[derive(Clone, Copy, Debug, PartialEq, Eq, Structural)]
pub enum DisplayIndex {
    Index0,
    Index1,
}

impl DisplayIndex {
    /// The display's number.
    pub fn index(&self) -> (r: usize)
        ensures
            r == match *self {
                DisplayIndex::Index0 => 0usize,
                DisplayIndex::Index1 => 1usize,
            },
    {
        match self {
            DisplayIndex::Index0 => 0,
            DisplayIndex::Index1 => 1,
        }
    }
}

/// The buffer position of pixel (`x`, `y`), whether or not it is on the
/// display.
pub open spec fn pixel_index(x: u32, y: u32) -> int {
    y * 256 + x
}

/// A simulated display.
pub struct DummyDisplay {
    buffer: Vec<u8>,
    needs_flush: bool,
    index: DisplayIndex,
}

impl DummyDisplay {
    /// The pixel bytes, row by row.
    pub closed spec fn pixels(self) -> Seq<u8> {
        self.buffer@
    }

    /// A display holds one byte for each of its pixels.
    pub open spec fn wf(self) -> bool {
        self.pixels().len() == BUFFER_LEN
    }

    /// Whether the buffer changed since it was last sent.
    pub closed spec fn needs_flush(self) -> bool {
        self.needs_flush
    }

    /// Which display this is.
    pub closed spec fn display_index(self) -> DisplayIndex {
        self.index
    }

    /// A black display, marked for sending.
    pub fn new(index: DisplayIndex) -> (r: DummyDisplay)
        ensures
            r.pixels() == Seq::new(BUFFER_LEN as nat, |i: int| 0u8),
            r.needs_flush(),
            r.display_index() == index,
    {
        let mut buffer: Vec<u8> = Vec::new();
        while buffer.len() < BUFFER_LEN
            invariant
                buffer@.len() <= BUFFER_LEN,
                forall|i: int| 0 <= i < buffer@.len() ==> buffer@[i] == 0u8,
            decreases BUFFER_LEN - buffer@.len(),
        {
            buffer.push(0);
        }
        assert(buffer@ =~= Seq::new(BUFFER_LEN as nat, |i: int| 0u8));
        DummyDisplay { buffer, needs_flush: true, index }
    }

    /// Which display this is.
    pub fn index(&self) -> (r: DisplayIndex)
        ensures
            r == self.display_index(),
    {
        self.index
    }

    /// Initialising marks the buffer for sending.
    pub fn init(&mut self)
        ensures
            final(self).pixels() == old(self).pixels(),
            final(self).needs_flush(),
            final(self).display_index() == old(self).display_index(),
    {
        self.needs_flush = true;
    }

    /// Blackens every pixel and marks the buffer for sending.
    pub fn clear(&mut self)
        ensures
            final(self).pixels() == Seq::new(BUFFER_LEN as nat, |i: int| 0u8),
            final(self).needs_flush(),
            final(self).display_index() == old(self).display_index(),
    {
        let index = self.index;
        *self = DummyDisplay::new(index);
    }

    /// The contrast the simulated display reports.
    pub fn get_contrast(&self) -> (r: u8)
        ensures
            r == 10,
    {
        10
    }

    /// Sets pixel (`x`, `y`) to grey level `value` (0 to 15), stored as
    /// `value * 17`; a position off the 256 x 64 display changes no pixel.
    /// Either way the buffer is marked for sending.
    pub fn set_pixel(&mut self, x: u32, y: u32, value: u8)
        requires
            old(self).wf(),
            value <= 15,
        ensures
            (x < NUM_PIXEL_COLS && y < NUM_PIXEL_ROWS) ==> final(self).pixels() == old(
                self,
            ).pixels().update(pixel_index(x, y), (value * 17) as u8),
            !(x < NUM_PIXEL_COLS && y < NUM_PIXEL_ROWS) ==> final(self).pixels() == old(self).pixels(),
            final(self).needs_flush(),
            final(self).display_index() == old(self).display_index(),
    {
        if x < NUM_PIXEL_COLS as u32 && y < NUM_PIXEL_ROWS as u32 {
            let idx: usize = y as usize * 256 + x as usize;
            self.buffer.set(idx, value * 17);
        }
        self.needs_flush = true;
    }

    /// Draws a pixel given in display coordinates: only pixels on the
    /// display are set, others are dropped.
    pub fn draw_pixel(&mut self, x: i32, y: i32, value: u8)
        requires
            old(self).wf(),
            value <= 15,
        ensures
            (0 <= x < 256 && 0 <= y < 64) ==> {
                &&& final(self).pixels() == old(self).pixels().update(y * 256 + x, (value * 17) as u8)
                &&& final(self).needs_flush()
            },
            !(0 <= x < 256 && 0 <= y < 64) ==> *final(self) == *old(self),
            final(self).display_index() == old(self).display_index(),
    {
        if 0 <= x && x < 256 && 0 <= y && y < 64 {
            self.set_pixel(x as u32, y as u32, value);
        }
    }

    /// The buffer to send, if it changed since it was last sent.  The mark
    /// stays until `finish_flush` reports the buffer sent.
    pub fn pending_flush(&self) -> (r: Option<Vec<u8>>)
        ensures
            self.needs_flush() ==> (r matches Some(v) && v@ == self.pixels()),
            !self.needs_flush() ==> r is None,
    {
        if self.needs_flush {
            Some(vstd::slice::slice_to_vec(self.buffer.as_slice()))
        } else {
            None
        }
    }

    /// After sending: a buffer that was sent counts as unchanged; after a
    /// failed send it stays marked, to be sent again.
    pub fn finish_flush(&mut self, sent: bool)
        ensures
            final(self).pixels() == old(self).pixels(),
            final(self).needs_flush() == (old(self).needs_flush() && !sent),
            final(self).display_index() == old(self).display_index(),
    {
        if sent {
            self.needs_flush = false;
        }
    }
}

} // verus!
