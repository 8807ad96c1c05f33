//! The frame buffer behind the brain's display.
//!
//! Drawing writes packed colours into a buffer with one word per pixel, row
//! by row. The buffer is then handed to the hardware as a whole.

use vstd::prelude::*;

verus! {

/// Pixels in one row of the display.
pub const HORIZONTAL_RESOLUTION: u32 = 480;

/// Rows of the display.
pub const VERTICAL_RESOLUTION: u32 = 272;

/// Words in the frame buffer.
pub const BUFFER_LEN: usize = 130560;

/// The first row of the screen that holds the frame.
pub const HEADER_HEIGHT: i32 = 0x20;

/// One pixel to draw: its place and its colour.
#[derive(Debug, Clone, Copy, PartialEq, Eq, Structural)]
pub struct Pixel {
    /// Column, counted from the left edge.
    pub x: i32,
    /// Row, counted from the top edge.
    pub y: i32,
    /// Red part of the colour.
    pub r: u8,
    /// Green part of the colour.
    pub g: u8,
    /// Blue part of the colour.
    pub b: u8,
}

/// The word that stands for a colour in the frame buffer: red in bits 16 to
/// 23, green in bits 8 to 15, blue in bits 0 to 7.
pub open spec fn spec_pack_rgb(r: u8, g: u8, b: u8) -> u32 {
    (r * 0x1_0000 + g * 0x100 + b) as u32
}

/// Packs a colour into one word of the frame buffer.
pub fn pack_rgb(r: u8, g: u8, b: u8) -> (word: u32)
    ensures
        word == spec_pack_rgb(r, g, b),
{
    (r as u32) * 0x1_0000 + (g as u32) * 0x100 + (b as u32)
}

impl Pixel {
    /// Whether the pixel's word lies inside the frame buffer: neither
    /// coordinate is negative and the row-major index is below the number
    /// of words.
    pub open spec fn in_buffer(self) -> bool {
        0 <= self.x && 0 <= self.y && self.y * HORIZONTAL_RESOLUTION + self.x < BUFFER_LEN
    }

    /// The index of the pixel's word in the frame buffer.
    pub open spec fn index(self) -> int {
        self.y * HORIZONTAL_RESOLUTION + self.x
    }

    /// Whether the pixel's word lies inside the frame buffer.
    pub fn is_in_buffer(&self) -> (b: bool)
        ensures
            b == self.in_buffer(),
    {
        self.x >= 0 && self.y >= 0 && (self.y as i64) * (HORIZONTAL_RESOLUTION as i64) + (
        self.x as i64) < BUFFER_LEN as i64
    }
}

/// The buffer `buffer` after the pixels `pixels` were drawn one after
/// another; a later pixel overwrites an earlier one at the same place.
pub open spec fn painted(buffer: Seq<u32>, pixels: Seq<Pixel>) -> Seq<u32>
    decreases pixels.len(),
{
    if pixels.len() == 0 {
        buffer
    } else {
        let last = pixels.last();
        painted(buffer, pixels.drop_last()).update(last.index(), spec_pack_rgb(last.r, last.g, last.b))
    }
}

/// A draw target for the brain's display. Its view is the frame, which a
/// display made by `new` and drawn on by `draw_iter` keeps at `BUFFER_LEN`
/// words.
pub struct BrainDisplay {
    triple_buffer: Vec<u32>,
}

impl View for BrainDisplay {
    type V = Seq<u32>;

    closed spec fn view(&self) -> Seq<u32> {
        self.triple_buffer@
    }
}

impl BrainDisplay {
    /// A display whose frame is black all over.
    pub fn new() -> (d: Self)
        ensures
            d@ == Seq::new(BUFFER_LEN as nat, |i: int| 0u32),
    {
        let mut buffer: Vec<u32> = Vec::new();
        while buffer.len() < BUFFER_LEN
            invariant
                buffer@.len() <= BUFFER_LEN,
                forall|i: int| 0 <= i < buffer@.len() ==> buffer@[i] == 0u32,
            decreases BUFFER_LEN - buffer@.len(),
        {
            buffer.push(0);
        }
        proof {
            assert(buffer@ =~= Seq::new(BUFFER_LEN as nat, |i: int| 0u32));
        }
        BrainDisplay { triple_buffer: buffer }
    }

    /// The area that can be drawn on: left, top, width and height.
    pub fn bounding_box(&self) -> (area: (i32, i32, u32, u32))
        ensures
            area == (0i32, 0i32, HORIZONTAL_RESOLUTION, VERTICAL_RESOLUTION),
    {
        (0, 0, HORIZONTAL_RESOLUTION, VERTICAL_RESOLUTION)
    }

    /// The frame, one word per pixel, row by row.
    pub fn frame(&self) -> (words: &Vec<u32>)
        ensures
            words@ == self@,
    {
        &self.triple_buffer
    }

    /// Draws `pixels` into the frame, one after another. Every pixel must
    /// lie inside the frame buffer.
    pub fn draw_iter(&mut self, pixels: &Vec<Pixel>)
        requires
            old(self)@.len() == BUFFER_LEN,
            forall|i: int| 0 <= i < pixels@.len() ==> (#[trigger] pixels@[i]).in_buffer(),
        ensures
            final(self)@ == painted(old(self)@, pixels@),
            final(self)@.len() == BUFFER_LEN,
    {
        let ghost before = self.triple_buffer@;
        let n = pixels.len();
        let mut i: usize = 0;
        while i < n
            invariant
                n == pixels@.len(),
                i <= n,
                self.triple_buffer@.len() == BUFFER_LEN,
                self.triple_buffer@ == painted(before, pixels@.take(i as int)),
                forall|j: int| 0 <= j < pixels@.len() ==> (#[trigger] pixels@[j]).in_buffer(),
            decreases n - i,
        {
            let pixel = pixels[i];
            assert(pixel.in_buffer());
            let index = (pixel.y as usize) * (HORIZONTAL_RESOLUTION as usize) + (pixel.x as usize);
            self.triple_buffer.set(index, pack_rgb(pixel.r, pixel.g, pixel.b));
            proof {
                let upto = pixels@.take(i + 1);
                assert(upto.drop_last() =~= pixels@.take(i as int));
                assert(upto.last() == pixel);
            }
            i += 1;
        }
        proof {
            assert(pixels@.take(n as int) =~= pixels@);
        }
    }
}

} // verus!
