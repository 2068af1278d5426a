//! The device's 128 by 64 one-bit display: a header and then one byte for
//! each column of eight rows.
use vstd::prelude::*;

verus! {

/// Bytes of the header that starts the display buffer.
pub const HEADER_LEN: usize = 8;
/// Bytes of pixel data.
pub const DISPLAY_BYTES: usize = 1024;
pub const DISPLAY_WIDTH: u32 = 128;
pub const DISPLAY_HEIGHT: u32 = 64;
/// Bytes of the whole buffer.
pub const BUFFER_LEN: usize = 1032;

/// Milliseconds between two frames sent to the display.
pub const FRAME_PERIOD_MS: u64 = 23;

/// The header bytes: "MOVEDISP".
pub open spec fn header() -> Seq<u8> {
    seq![77u8, 79, 86, 69, 68, 73, 83, 80]
}

/// The byte that holds pixel (`x`, `y`).
pub open spec fn pixel_byte(x: int, y: int) -> int {
    x + (y / 8) * 128 + 8
}

/// The bit of that byte that holds the pixel.
pub open spec fn pixel_bit(y: int) -> u8 {
    (1u8 << ((y % 8) as u8)) as u8
}

/// The display buffer, and whether it changed since it was last taken.
pub struct MoveDisplay {
    framebuffer: [u8; 1032],
    dirty: bool,
}

impl MoveDisplay {
    pub closed spec fn spec_buffer(&self) -> Seq<u8> {
        self.framebuffer@
    }

    pub closed spec fn spec_dirty(&self) -> bool {
        self.dirty
    }

    /// A blank display whose buffer is to be sent.
    pub fn new() -> (d: Self)
        ensures
            d.spec_buffer().len() == BUFFER_LEN,
            d.spec_buffer().take(8) == header(),
            forall|i: int| 8 <= i < BUFFER_LEN ==> d.spec_buffer()[i] == 0,
            d.spec_dirty(),
    {
        let mut framebuffer: [u8; 1032] = [0u8; 1032];
        framebuffer[0] = 77;
        framebuffer[1] = 79;
        framebuffer[2] = 86;
        framebuffer[3] = 69;
        framebuffer[4] = 68;
        framebuffer[5] = 73;
        framebuffer[6] = 83;
        framebuffer[7] = 80;
        let d = MoveDisplay { framebuffer, dirty: true };
        assert(d.spec_buffer().take(8) =~= header());
        d
    }

    /// The buffer.
    pub fn framebuffer(&self) -> (b: &[u8; 1032])
        ensures
            b@ == self.spec_buffer(),
    {
        &self.framebuffer
    }

    /// The buffer when it changed since it was last taken; it is then marked
    /// as taken.
    pub fn draw_if(&mut self) -> (r: Option<Vec<u8>>)
        ensures
            match r {
                Some(b) => old(self).spec_dirty() && b@ == old(self).spec_buffer(),
                None => !old(self).spec_dirty(),
            },
            !final(self).spec_dirty(),
            final(self).spec_buffer() == old(self).spec_buffer(),
    {
        if self.dirty {
            let mut b: Vec<u8> = Vec::new();
            let mut i: usize = 0;
            while i < BUFFER_LEN
                invariant
                    i <= BUFFER_LEN,
                    self.framebuffer@.len() == BUFFER_LEN,
                    b@ == self.framebuffer@.take(i as int),
                decreases BUFFER_LEN - i,
            {
                b.push(self.framebuffer[i]);
                i = i + 1;
                assert(b@ =~= self.framebuffer@.take(i as int));
            }
            assert(self.framebuffer@.take(BUFFER_LEN as int) =~= self.framebuffer@);
            self.dirty = false;
            Some(b)
        } else {
            None
        }
    }

    /// Sets (`on`) or clears pixel (`x`, `y`); pixels off the display are
    /// left alone.
    pub fn draw_pixel(&mut self, x: i32, y: i32, on: bool)
        ensures
            final(self).spec_dirty() == old(self).spec_dirty(),
            if 0 <= x < 128 && 0 <= y < 64 {
                let i = pixel_byte(x as int, y as int);
                let b = old(self).spec_buffer()[i];
                final(self).spec_buffer() == old(self).spec_buffer().update(
                    i,
                    if on {
                        b | pixel_bit(y as int)
                    } else {
                        b & !pixel_bit(y as int)
                    },
                )
            } else {
                final(self).spec_buffer() == old(self).spec_buffer()
            },
    {
        if 0 <= x && x < 128 && 0 <= y && y < 64 {
            let xu = x as usize;
            let yu = y as usize;
            let i = xu + (yu / 8) * 128 + 8;
            let bit: u8 = 1u8 << ((yu % 8) as u8);
            assert(bit == pixel_bit(y as int));
            if on {
                self.framebuffer[i] = self.framebuffer[i] | bit;
            } else {
                self.framebuffer[i] = self.framebuffer[i] & !bit;
            }
        }
    }

    /// Sets every pixel on or off; the header stays.
    pub fn clear(&mut self, on: bool)
        ensures
            final(self).spec_dirty() == old(self).spec_dirty(),
            final(self).spec_buffer().len() == BUFFER_LEN,
            final(self).spec_buffer().take(8) == old(self).spec_buffer().take(8),
            forall|i: int| 8 <= i < BUFFER_LEN ==> final(self).spec_buffer()[i] == if on {
                0xFFu8
            } else {
                0u8
            },
    {
        let v: u8 = if on {
            0xFF
        } else {
            0
        };
        let mut i: usize = HEADER_LEN;
        while i < BUFFER_LEN
            invariant
                HEADER_LEN <= i <= BUFFER_LEN,
                self.framebuffer@.len() == BUFFER_LEN,
                self.dirty == old(self).dirty,
                self.framebuffer@.take(8) == old(self).framebuffer@.take(8),
                forall|j: int| 8 <= j < i ==> self.framebuffer@[j] == v,
            decreases BUFFER_LEN - i,
        {
            self.framebuffer[i] = v;
            i = i + 1;
            assert(self.framebuffer@.take(8) =~= old(self).framebuffer@.take(8));
        }
    }
}

} // verus!
