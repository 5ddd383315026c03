//! What is drawn where: the size of the terminal and how it changes, the
//! place of the status line, and the picture as a series of drawing steps.
//!
//! Nothing here writes to a terminal. Each function says what is to be
//! written; writing it is left to the caller.

use vstd::prelude::*;

verus! {

/// One picture element, in the order in which a decoded frame stores its
/// channels.
#[derive(Clone, Copy, Debug, PartialEq, Eq, Structural)]
pub struct Pixel {
    pub blue: u8,
    pub green: u8,
    pub red: u8,
}

/// One step of drawing a picture.
#[derive(Clone, Copy, Debug, PartialEq, Eq, Structural)]
pub enum DrawOp {
    /// Go to the start of the next line.
    LineBreak,
    /// Set the background colour.
    Background { red: u8, green: u8, blue: u8 },
    /// Print one blank in the background colour.
    Blank,
    /// Set the background colour back to the terminal's own.
    ResetBackground,
}

/// The colour that needs no background step.
pub open spec fn is_black(pixel: Pixel) -> bool {
    pixel.red == 0 && pixel.green == 0 && pixel.blue == 0
}

/// A new line begins before pixel `i`.
pub open spec fn starts_line(i: int, width: nat) -> bool {
    width > 0 && i != 0 && i % (width as int) == 0
}

/// The steps that draw one pixel: a line break where a new line begins, the
/// background colour unless the pixel is black, and a blank.
pub open spec fn pixel_ops(pixels: Seq<Pixel>, width: nat, i: int) -> Seq<DrawOp> {
    let line: Seq<DrawOp> = if starts_line(i, width) {
        seq![DrawOp::LineBreak]
    } else {
        Seq::empty()
    };
    let colour: Seq<DrawOp> = if is_black(pixels[i]) {
        Seq::empty()
    } else {
        seq![
            DrawOp::Background {
                red: pixels[i].red,
                green: pixels[i].green,
                blue: pixels[i].blue,
            },
        ]
    };
    line + colour + seq![DrawOp::Blank]
}

/// The steps that draw the first `n` pixels.
pub open spec fn ops_up_to(pixels: Seq<Pixel>, width: nat, n: nat) -> Seq<DrawOp>
    decreases n,
{
    if n == 0 {
        Seq::empty()
    } else {
        ops_up_to(pixels, width, (n - 1) as nat) + pixel_ops(pixels, width, n - 1)
    }
}

/// The steps that draw a whole picture of the given width, row by row, and
/// leave the background as the terminal had it.
pub open spec fn picture_ops(pixels: Seq<Pixel>, width: nat) -> Seq<DrawOp> {
    ops_up_to(pixels, width, pixels.len()) + seq![DrawOp::ResetBackground]
}

/// The place of a text of `len` columns that ends in the last column of the
/// status line, as column and row; nothing if the text is wider than the
/// terminal.
pub open spec fn bottom_right(width: u16, height: u16, len: nat) -> Option<(u16, u16)> {
    if len <= width {
        Some(((width - len) as u16, height))
    } else {
        None
    }
}

/// The level that a colour value is rounded to when each channel keeps
/// `colours` levels: the nearest multiple of `255 / colours`, halves going
/// up, and 255 at most.
pub open spec fn quantized(value: u8, colours: u8) -> u8
    recommends
        colours > 0,
{
    let step: int = 255int / (colours as int);
    let nearest: int = (2 * value + step) / (2 * step) * step;
    if nearest > 255 {
        255
    } else {
        nearest as u8
    }
}

/// A pixel with each channel rounded.
pub open spec fn quantized_pixel(pixel: Pixel, colours: u8) -> Pixel {
    Pixel {
        blue: quantized(pixel.blue, colours),
        green: quantized(pixel.green, colours),
        red: quantized(pixel.red, colours),
    }
}

/// Rounds one colour value to one of `colours` levels.
pub fn quantize(value: u8, colours: u8) -> (level: u8)
    requires
        colours > 0,
    ensures
        level == quantized(value, colours),
{
    let step: u32 = 255 / (colours as u32);
    assert(1 <= step <= 255) by (nonlinear_arith)
        requires
            1 <= colours <= 255,
            step == 255int / (colours as int),
    ;
    let rounds: u32 = (2 * (value as u32) + step) / (2 * step);
    assert(rounds * step <= 2 * value + step) by (nonlinear_arith)
        requires
            step > 0,
            rounds == (2 * value + step) / (2 * step),
    ;
    let nearest: u32 = rounds * step;
    if nearest > 255 {
        255
    } else {
        nearest as u8
    }
}

/// Reduces the colour depth of a picture: every channel of every pixel is
/// rounded to one of `colours_per_channel` levels.
pub fn change_color_depth(pixels: &mut Vec<Pixel>, colours_per_channel: u8)
    requires
        colours_per_channel > 0,
    ensures
        final(pixels)@.len() == old(pixels)@.len(),
        forall|i: int|
            0 <= i < old(pixels)@.len() ==> final(pixels)@[i] == quantized_pixel(
                old(pixels)@[i],
                colours_per_channel,
            ),
{
    let mut i: usize = 0;
    while i < pixels.len()
        invariant
            colours_per_channel > 0,
            i <= pixels.len(),
            pixels@.len() == old(pixels)@.len(),
            forall|k: int|
                0 <= k < i ==> pixels@[k] == quantized_pixel(old(pixels)@[k], colours_per_channel),
            forall|k: int| i <= k < pixels@.len() ==> pixels@[k] == old(pixels)@[k],
        decreases pixels.len() - i,
    {
        let pixel = pixels[i];
        let rounded = Pixel {
            blue: quantize(pixel.blue, colours_per_channel),
            green: quantize(pixel.green, colours_per_channel),
            red: quantize(pixel.red, colours_per_channel),
        };
        pixels.set(i, rounded);
        i += 1;
    }
}

/// The size of the terminal as it was last seen, in columns and rows.
#[derive(Clone, Copy, Debug, PartialEq, Eq, Structural)]
pub struct FrameWriter {
    pub width: u16,
    pub height: u16,
}

impl FrameWriter {
    /// A writer for a terminal of the given size.
    pub fn new(width: u16, height: u16) -> (writer: FrameWriter)
        ensures
            writer == (FrameWriter { width, height }),
    {
        FrameWriter { width, height }
    }

    /// Takes in the size that the terminal has now. Hands back that size,
    /// and whether it differs from the size last seen.
    pub fn get_size(&mut self, width: u16, height: u16) -> (size: (u16, u16, bool))
        ensures
            *final(self) == (FrameWriter { width, height }),
            size == (width, height, old(self).width != width || old(self).height != height),
    {
        let mut changed = false;
        if width != self.width || height != self.height {
            self.width = width;
            self.height = height;
            changed = true;
        }
        (self.width, self.height, changed)
    }

    /// The rows that the picture takes: all but the last, which is kept for
    /// the status line.
    pub fn picture_rows(&self) -> (rows: u16)
        ensures
            rows == if self.height > 0 { (self.height - 1) as u16 } else { 0u16 },
    {
        if self.height > 0 {
            self.height - 1
        } else {
            0
        }
    }

    /// Where a text of `len` columns is written so that it ends in the last
    /// column of the status line; nowhere if it does not fit.
    pub fn write_to_bottomright(&self, len: usize) -> (at: Option<(u16, u16)>)
        ensures
            at == bottom_right(self.width, self.height, len as nat),
    {
        if len <= self.width as usize {
            Some((self.width - len as u16, self.height))
        } else {
            None
        }
    }

    /// The steps that draw a picture of the given width.
    pub fn write_frame(pixels: &Vec<Pixel>, width: usize) -> (ops: Vec<DrawOp>)
        ensures
            ops@ == picture_ops(pixels@, width as nat),
    {
        let mut ops: Vec<DrawOp> = Vec::new();
        let mut i: usize = 0;
        while i < pixels.len()
            invariant
                i <= pixels.len(),
                ops@ == ops_up_to(pixels@, width as nat, i as nat),
            decreases pixels.len() - i,
        {
            let ghost before = ops@;
            if width > 0 && i != 0 && i % width == 0 {
                ops.push(DrawOp::LineBreak);
            }
            let pixel = pixels[i];
            if pixel.red != 0 || pixel.green != 0 || pixel.blue != 0 {
                ops.push(DrawOp::Background { red: pixel.red, green: pixel.green, blue: pixel.blue });
            }
            ops.push(DrawOp::Blank);
            assert(ops@ =~= before + pixel_ops(pixels@, width as nat, i as int));
            i += 1;
        }
        ops.push(DrawOp::ResetBackground);
        ops
    }
}

} // verus!
