//! The 64x32 monochrome framebuffer.

use vstd::prelude::*;

verus! {

/// Whether a pixel is lit.
#[derive(Clone, Copy, Debug, PartialEq, Eq, Structural)]
pub enum PixelState {
    On,
    Off,
}

/// One byte per pixel, row-major: pixel `(x, y)` lives at `x + y * 64`.
pub struct Screen {
    pub pixels: [u8; 2048],
}

/// Position of pixel `(x, y)` in the row-major pixel buffer.
pub open spec fn pixel_index(x: int, y: int) -> int {
    x + y * 64
}

/// The byte stored for a pixel in the given state.
pub open spec fn state_byte(state: PixelState) -> u8 {
    match state {
        PixelState::On => 1,
        PixelState::Off => 0,
    }
}

/// The state a stored byte stands for: zero is off, anything else is on.
pub open spec fn byte_state(byte: u8) -> PixelState {
    if byte == 0 {
        PixelState::Off
    } else {
        PixelState::On
    }
}

/// A buffer of 2048 dark pixels.
pub open spec fn blank() -> Seq<u8> {
    Seq::new(2048, |i: int| 0u8)
}

/// Every pixel byte is one of the two meaningful values, 0 or 1.
pub open spec fn binary(pixels: Seq<u8>) -> bool {
    forall|i: int| 0 <= i < pixels.len() ==> #[trigger] pixels[i] <= 1
}

impl Screen {
    /// Number of pixel columns.
    pub const WIDTH: usize = 64;

    /// Number of pixel rows.
    pub const HEIGHT: usize = 32;

    /// Well-formedness: the buffer only holds the bytes 0 and 1.
    pub open spec fn wf(&self) -> bool {
        binary(self.pixels@)
    }

    /// A screen with every pixel off.
    pub fn new() -> (screen: Self)
        ensures
            screen.pixels@ == blank(),
            screen.wf(),
    {
        Self { pixels: [0; 2048] }
    }

    /// Turns every pixel off.
    pub fn clear(&mut self)
        ensures
            final(self).pixels@ == blank(),
            final(self).wf(),
    {
        self.pixels = [0; 2048];
    }

    /// Writes the state of the pixel at `pos = (x, y)`.
    pub fn update_pixel(&mut self, pos: (usize, usize), state: PixelState)
        requires
            pos.0 < Screen::WIDTH,
            pos.1 < Screen::HEIGHT,
        ensures
            final(self).pixels@ == old(self).pixels@.update(
                pixel_index(pos.0 as int, pos.1 as int),
                state_byte(state),
            ),
            old(self).wf() ==> final(self).wf(),
    {
        let (x, y) = pos;
        match state {
            PixelState::On => self.pixels[x + y * Screen::WIDTH] = 1,
            PixelState::Off => self.pixels[x + y * Screen::WIDTH] = 0,
        }
    }

    /// Reads the state of the pixel at `pos = (x, y)`.
    pub fn get_pixel_state(&self, pos: (usize, usize)) -> (state: PixelState)
        requires
            pos.0 < Screen::WIDTH,
            pos.1 < Screen::HEIGHT,
        ensures
            state == byte_state(self.pixels@[pixel_index(pos.0 as int, pos.1 as int)]),
    {
        let (x, y) = pos;
        match self.pixels[x + y * Screen::WIDTH] {
            0 => PixelState::Off,
            _ => PixelState::On,
        }
    }
}

} // verus!
