//! The pixel buffer: validated colour samples, collected row by row and
//! written out as image text.

use crate::basics::binary64::{
    above, below, constants_stand_for_their_numbers, eq, equal, gt, lt, nan, value,
    value_follows_rank, ONE, SIGN_BIT, ZERO,
};
use crate::basics::ppm;
use crate::errors::nan::{check, nan_message};
use crate::errors::MainErr;
use std::cmp::Ordering;
use vstd::arithmetic::power2::pow2;
use vstd::prelude::*;
use vstd::string::*;

verus! {

/// Why an operation on an image failed.
#[derive(Debug, Clone, Copy, PartialEq, Eq, Structural)]
pub enum ImageErr {
    /// A colour channel lies outside 0 to 1.
    InvalidRgbInputErr,
    /// The width or the height is zero.
    InvalidImgParamErr,
    /// The number of pixels is not width times height.
    InvalidPixelsErr,
    /// No pixel stands at the row and column asked for.
    InvalidPixelIdxErr,
}

impl ImageErr {
    /// The text shown for the error.
    pub open spec fn shown(&self) -> Seq<char> {
        match self {
            ImageErr::InvalidRgbInputErr => "invalid rgb float value"@,
            ImageErr::InvalidImgParamErr => "invalid image parameter (width or height)"@,
            ImageErr::InvalidPixelsErr => "existing amount of pixel(s) doesn't satisfy width * height"@,
            ImageErr::InvalidPixelIdxErr => "invalid index of current image pixel(s)"@,
        }
    }

    /// Renders the error as text.
    pub fn message(&self) -> (r: String)
        ensures
            r@ == self.shown(),
    {
        match self {
            ImageErr::InvalidRgbInputErr => String::from_str("invalid rgb float value"),
            ImageErr::InvalidImgParamErr => String::from_str(
                "invalid image parameter (width or height)",
            ),
            ImageErr::InvalidPixelsErr => String::from_str(
                "existing amount of pixel(s) doesn't satisfy width * height",
            ),
            ImageErr::InvalidPixelIdxErr => String::from_str(
                "invalid index of current image pixel(s)",
            ),
        }
    }
}

/// Why a colour was refused.
#[derive(Debug)]
pub enum PixelErr {
    /// A channel lies outside 0 to 1.
    Image(ImageErr),
    /// A channel is not a number.
    NaN(MainErr),
}

/// One colour channel: its value, and the value scaled towards the range of
/// a byte. Scaling is arithmetic on the number, which this library leaves to
/// the caller; it takes the scaled value as it is given.
#[derive(Debug, Clone, Copy, PartialEq, Eq, Structural)]
pub struct Sample {
    /// The channel's value, as a binary64 bit pattern.
    pub bits: u64,
    /// The value times 255.999, rounded to the nearest whole number, halves
    /// away from zero.
    pub scaled: u16,
}

/// A colour of three channels, each a number from 0 to 1.
#[derive(Debug, Clone, Copy)]
pub struct ImgPixel {
    float_r: Sample,
    float_g: Sample,
    float_b: Sample,
}

/// Whether a value lies outside 0 to 1. A value that is not a number does not.
pub open spec fn outside(bits: u64) -> bool {
    above(bits, ONE) || below(bits, ZERO)
}

/// Whether a value is a number from 0 to 1.
pub open spec fn unit(bits: u64) -> bool {
    !outside(bits) && !nan(bits)
}

/// The numbers from 0 to 1 are those whose value lies between the values of
/// zero and one; their patterns are negative zero and the patterns up to that
/// of one.
pub proof fn unit_is_zero_to_one(bits: u64)
    ensures
        unit(bits) <==> !nan(bits) && 0 <= value(bits) <= pow2(1074),
        unit(bits) <==> bits <= ONE || bits == SIGN_BIT,
{
    constants_stand_for_their_numbers();
    value_follows_rank(bits, ONE);
    value_follows_rank(bits, ZERO);
}

/// The 8-bit level of a scaled channel: 256 counts as 255, and of any other
/// value the low eight bits are kept.
pub open spec fn level(scaled: u16) -> u8 {
    if scaled == 256 {
        255u8
    } else {
        (scaled % 256) as u8
    }
}

/// The 8-bit levels of a colour.
pub open spec fn levels(colour: (Sample, Sample, Sample)) -> (u8, u8, u8) {
    (level(colour.0.scaled), level(colour.1.scaled), level(colour.2.scaled))
}

/// Whether `r` is the verdict on a colour that is validated at `site`. A
/// channel outside 0 to 1 is reported first, whichever channel it is; only
/// then one that is not a number.
pub open spec fn verdict(colour: (Sample, Sample, Sample), site: Seq<char>, r: Result<
    (),
    PixelErr,
>) -> bool {
    match r {
        Ok(_) => unit(colour.0.bits) && unit(colour.1.bits) && unit(colour.2.bits),
        Err(PixelErr::Image(e)) => e == ImageErr::InvalidRgbInputErr && (outside(colour.0.bits)
            || outside(colour.1.bits) || outside(colour.2.bits)),
        Err(PixelErr::NaN(e)) => !outside(colour.0.bits) && !outside(colour.1.bits) && !outside(
            colour.2.bits,
        ) && (nan(colour.0.bits) || nan(colour.1.bits) || nan(colour.2.bits)) && e@
            == nan_message(site),
    }
}

/// What a colour becomes when another is set on it: nothing changes if a
/// channel of the other lies outside 0 to 1; otherwise its channels are taken
/// over in the order red, green, blue, up to the first that is not a number.
pub open spec fn taken_over(colour: (Sample, Sample, Sample), other: (Sample, Sample, Sample)) -> (
    Sample,
    Sample,
    Sample,
) {
    if outside(other.0.bits) || outside(other.1.bits) || outside(other.2.bits) || nan(
        other.0.bits,
    ) {
        colour
    } else if nan(other.1.bits) {
        (other.0, colour.1, colour.2)
    } else if nan(other.2.bits) {
        (other.0, other.1, colour.2)
    } else {
        other
    }
}

/// Whether `r` is the verdict on one channel that is validated at `site`.
pub open spec fn channel_verdict(bits: u64, site: Seq<char>, r: Result<(), PixelErr>) -> bool {
    match r {
        Ok(_) => unit(bits),
        Err(PixelErr::Image(e)) => e == ImageErr::InvalidRgbInputErr && outside(bits),
        Err(PixelErr::NaN(e)) => !outside(bits) && nan(bits) && e@ == nan_message(site),
    }
}

fn is_outside(bits: u64) -> (r: bool)
    ensures
        r == outside(bits),
{
    gt(bits, ONE) || lt(bits, ZERO)
}

fn number_at(bits: u64, site: &str) -> (r: Result<(), PixelErr>)
    ensures
        match r {
            Ok(_) => !nan(bits),
            Err(PixelErr::NaN(e)) => nan(bits) && e@ == nan_message(site@),
            Err(PixelErr::Image(_)) => false,
        },
{
    match check::<MainErr>(bits, site) {
        Ok(_) => Ok(()),
        Err(e) => Err(PixelErr::NaN(e)),
    }
}

fn validate(colour: (Sample, Sample, Sample), site: &str) -> (r: Result<(), PixelErr>)
    ensures
        verdict(colour, site@, r),
{
    if is_outside(colour.0.bits) || is_outside(colour.1.bits) || is_outside(colour.2.bits) {
        return Err(PixelErr::Image(ImageErr::InvalidRgbInputErr));
    }
    number_at(colour.0.bits, site)?;
    number_at(colour.1.bits, site)?;
    number_at(colour.2.bits, site)?;
    Ok(())
}

fn validate_channel(bits: u64, site: &str) -> (r: Result<(), PixelErr>)
    ensures
        channel_verdict(bits, site@, r),
{
    if is_outside(bits) {
        return Err(PixelErr::Image(ImageErr::InvalidRgbInputErr));
    }
    number_at(bits, site)
}

fn level_of(scaled: u16) -> (r: u8)
    ensures
        r == level(scaled),
{
    if scaled == 256 {
        255
    } else {
        (scaled % 256) as u8
    }
}

impl View for ImgPixel {
    type V = (Sample, Sample, Sample);

    /// The red, green and blue channels.
    closed spec fn view(&self) -> (Sample, Sample, Sample) {
        (self.float_r, self.float_g, self.float_b)
    }
}

impl PartialEq for ImgPixel {
    /// Equality of the channels as numbers: a zero equals the other zero.
    fn eq(&self, other: &Self) -> (r: bool) {
        eq(self.float_r.bits, other.float_r.bits) && eq(self.float_g.bits, other.float_g.bits)
            && eq(self.float_b.bits, other.float_b.bits)
    }
}

impl vstd::std_specs::cmp::PartialEqSpecImpl for ImgPixel {
    open spec fn obeys_eq_spec() -> bool {
        true
    }

    open spec fn eq_spec(&self, other: &Self) -> bool {
        equal(self@.0.bits, other@.0.bits) && equal(self@.1.bits, other@.1.bits) && equal(
            self@.2.bits,
            other@.2.bits,
        )
    }
}

impl ImgPixel {
    #[verifier::type_invariant]
    spec fn in_range(self) -> bool {
        unit(self.float_r.bits) && unit(self.float_g.bits) && unit(self.float_b.bits)
    }

    /// Makes a colour from three channels, if each is a number from 0 to 1.
    pub fn new_from(float_r: Sample, float_g: Sample, float_b: Sample) -> (r: Result<
        Self,
        PixelErr,
    >)
        ensures
            match r {
                Ok(p) => p@ == (float_r, float_g, float_b) && verdict(p@, "ImgPixel::new_from"@, Ok(())),
                Err(e) => verdict((float_r, float_g, float_b), "ImgPixel::new_from"@, Err(e)),
            },
    {
        validate((float_r, float_g, float_b), "ImgPixel::new_from")?;
        Ok(Self { float_r, float_g, float_b })
    }

    /// The 8-bit levels of the three channels.
    pub fn scale_rgb(&self) -> (r: (u8, u8, u8))
        ensures
            r == levels(self@),
    {
        (level_of(self.float_r.scaled), level_of(self.float_g.scaled), level_of(self.float_b.scaled))
    }

    /// Replaces the three channels, if each new one is a number from 0 to 1.
    /// A colour with a channel outside 0 to 1 changes nothing. Otherwise the
    /// channels are taken over in the order red, green, blue, up to the first
    /// that is not a number.
    pub fn set(&mut self, float_r: Sample, float_g: Sample, float_b: Sample) -> (r: Result<
        (),
        PixelErr,
    >)
        ensures
            verdict((float_r, float_g, float_b), "ImgPixel::set"@, r),
            final(self)@ == taken_over(old(self)@, (float_r, float_g, float_b)),
    {
        proof {
            use_type_invariant(&*self);
        }
        if is_outside(float_r.bits) || is_outside(float_g.bits) || is_outside(float_b.bits) {
            return Err(PixelErr::Image(ImageErr::InvalidRgbInputErr));
        }
        number_at(float_r.bits, "ImgPixel::set")?;
        *self = Self { float_r, float_g: self.float_g, float_b: self.float_b };
        number_at(float_g.bits, "ImgPixel::set")?;
        *self = Self { float_r, float_g, float_b: self.float_b };
        number_at(float_b.bits, "ImgPixel::set")?;
        *self = Self { float_r, float_g, float_b };
        Ok(())
    }

    /// Replaces the red channel, if the new one is a number from 0 to 1.
    pub fn set_r(&mut self, float_r: Sample) -> (r: Result<(), PixelErr>)
        ensures
            channel_verdict(float_r.bits, "ImgPixel::set_r"@, r),
            r is Ok ==> final(self)@ == (float_r, old(self)@.1, old(self)@.2),
            r is Err ==> final(self)@ == old(self)@,
    {
        proof {
            use_type_invariant(&*self);
        }
        validate_channel(float_r.bits, "ImgPixel::set_r")?;
        *self = Self { float_r, float_g: self.float_g, float_b: self.float_b };
        Ok(())
    }

    /// Replaces the green channel, if the new one is a number from 0 to 1.
    pub fn set_g(&mut self, float_g: Sample) -> (r: Result<(), PixelErr>)
        ensures
            channel_verdict(float_g.bits, "ImgPixel::set_g"@, r),
            r is Ok ==> final(self)@ == (old(self)@.0, float_g, old(self)@.2),
            r is Err ==> final(self)@ == old(self)@,
    {
        proof {
            use_type_invariant(&*self);
        }
        validate_channel(float_g.bits, "ImgPixel::set_g")?;
        *self = Self { float_r: self.float_r, float_g, float_b: self.float_b };
        Ok(())
    }

    /// Replaces the blue channel, if the new one is a number from 0 to 1.
    pub fn set_b(&mut self, float_b: Sample) -> (r: Result<(), PixelErr>)
        ensures
            channel_verdict(float_b.bits, "ImgPixel::set_b"@, r),
            r is Ok ==> final(self)@ == (old(self)@.0, old(self)@.1, float_b),
            r is Err ==> final(self)@ == old(self)@,
    {
        proof {
            use_type_invariant(&*self);
        }
        validate_channel(float_b.bits, "ImgPixel::set_b")?;
        *self = Self { float_r: self.float_r, float_g: self.float_g, float_b };
        Ok(())
    }

    /// The red channel, which is a number from 0 to 1.
    pub fn get_r(&self) -> (r: u64)
        ensures
            r == self@.0.bits,
            unit(r),
    {
        proof {
            use_type_invariant(self);
        }
        self.float_r.bits
    }

    /// The green channel, which is a number from 0 to 1.
    pub fn get_g(&self) -> (r: u64)
        ensures
            r == self@.1.bits,
            unit(r),
    {
        proof {
            use_type_invariant(self);
        }
        self.float_g.bits
    }

    /// The blue channel, which is a number from 0 to 1.
    pub fn get_b(&self) -> (r: u64)
        ensures
            r == self@.2.bits,
            unit(r),
    {
        proof {
            use_type_invariant(self);
        }
        self.float_b.bits
    }
}

/// A grid of colours of a fixed width and height, filled row by row.
#[derive(Debug)]
pub struct Img {
    width: usize,
    height: usize,
    pixels: Vec<ImgPixel>,
}

/// What an image holds.
pub struct ImgView {
    /// The number of columns.
    pub width: nat,
    /// The number of rows.
    pub height: nat,
    /// The colours appended so far, in the order of their arrival.
    pub pixels: Seq<(Sample, Sample, Sample)>,
}

impl ImgView {
    /// Whether the grid has a column and a row. Every image that this module
    /// makes has, and appending keeps it so.
    pub open spec fn wf(self) -> bool {
        self.width > 0 && self.height > 0
    }

    /// The number of pixels that fill the grid.
    pub open spec fn area(self) -> nat {
        self.width * self.height
    }

    /// Whether the grid is exactly full.
    pub open spec fn complete(self) -> bool {
        self.pixels.len() == self.area()
    }

    /// The place in the row-major order of the pixel at a row and a column,
    /// both counted from 1.
    pub open spec fn position(self, line: int, col: int) -> int {
        (line - 1) * self.width + (col - 1)
    }

    /// Whether a pixel stands at a row and a column, both counted from 1.
    pub open spec fn holds(self, line: int, col: int) -> bool {
        line >= 1 && col >= 1 && self.position(line, col) < self.pixels.len()
    }

    /// The image text of the grid.
    pub open spec fn text(self) -> Seq<u8> {
        ppm::document(self.width, self.height, all_levels(self.pixels))
    }
}

/// The 8-bit levels of each colour of a sequence.
pub open spec fn all_levels(pixels: Seq<(Sample, Sample, Sample)>) -> Seq<(u8, u8, u8)> {
    pixels.map_values(|colour: (Sample, Sample, Sample)| levels(colour))
}

impl View for Img {
    type V = ImgView;

    closed spec fn view(&self) -> ImgView {
        ImgView {
            width: self.width as nat,
            height: self.height as nat,
            pixels: self.pixels@.map_values(|p: ImgPixel| p@),
        }
    }
}

impl Img {
    /// Makes an empty image of the given width and height, neither of which
    /// may be zero.
    pub fn new_from(w: usize, h: usize) -> (r: Result<Self, ImageErr>)
        ensures
            match r {
                Ok(img) => w != 0 && h != 0 && img@ == (ImgView {
                    width: w as nat,
                    height: h as nat,
                    pixels: Seq::empty(),
                }),
                Err(e) => e == ImageErr::InvalidImgParamErr && (w == 0 || h == 0),
            },
    {
        if w == 0 || h == 0 {
            return Err(ImageErr::InvalidImgParamErr);
        }
        let img = Self { width: w, height: h, pixels: Vec::new() };
        assert(img@.pixels =~= Seq::empty());
        Ok(img)
    }

    /// The number of columns.
    pub fn get_w(&self) -> (r: usize)
        ensures
            r == self@.width,
    {
        self.width
    }

    /// The number of rows.
    pub fn get_h(&self) -> (r: usize)
        ensures
            r == self@.height,
    {
        self.height
    }

    /// The number of pixels appended so far.
    pub fn count(&self) -> (r: usize)
        ensures
            r == self@.pixels.len(),
    {
        self.pixels.len()
    }

    /// Appends a colour, if each of its channels is a number from 0 to 1.
    /// A colour that is refused leaves the image as it was.
    pub fn append(&mut self, float_r: Sample, float_g: Sample, float_b: Sample) -> (r: Result<
        (),
        PixelErr,
    >)
        ensures
            verdict((float_r, float_g, float_b), "ImgPixel::new_from"@, r),
            r is Ok ==> final(self)@ == (ImgView {
                pixels: old(self)@.pixels.push((float_r, float_g, float_b)),
                ..old(self)@
            }),
            r is Err ==> final(self)@ == old(self)@,
    {
        let pixel = ImgPixel::new_from(float_r, float_g, float_b)?;
        self.pixels.push(pixel);
        assert(self@.pixels =~= old(self)@.pixels.push((float_r, float_g, float_b)));
        Ok(())
    }

    /// The pixel at a row and a column, both counted from 1, rows laid out
    /// one after another.
    pub fn index_of(&self, line: usize, col: usize) -> (r: Result<ImgPixel, ImageErr>)
        ensures
            match r {
                Ok(p) => self@.holds(line as int, col as int) && p@ == self@.pixels[self@.position(
                    line as int,
                    col as int,
                )],
                Err(e) => e == ImageErr::InvalidPixelIdxErr && !self@.holds(
                    line as int,
                    col as int,
                ),
            },
    {
        let count: usize = self.pixels.len();
        if line == 0 || col == 0 {
            return Err(ImageErr::InvalidPixelIdxErr);
        }
        let rows: usize = match (line - 1).checked_mul(self.width) {
            Some(rows) => rows,
            None => {
                return Err(ImageErr::InvalidPixelIdxErr);
            },
        };
        let pos: usize = match rows.checked_add(col - 1) {
            Some(pos) => pos,
            None => {
                return Err(ImageErr::InvalidPixelIdxErr);
            },
        };
        if pos >= count {
            return Err(ImageErr::InvalidPixelIdxErr);
        }
        Ok(self.pixels[pos])
    }

    /// The number of pixels that fill the grid, if the machine can count them.
    fn area(&self) -> (r: Option<usize>)
        ensures
            match r {
                Some(a) => a == self@.area(),
                None => self@.area() > usize::MAX,
            },
    {
        self.width.checked_mul(self.height)
    }

    /// Where the filling stands: the row that the next pixel falls in, counted
    /// from 1; the number of pixels already in that row; and whether the image
    /// holds fewer pixels than the grid, as many, or more.
    pub fn last(&self) -> (r: (usize, usize, Ordering))
        requires
            self@.wf(),
            self@.pixels.len() < usize::MAX,
        ensures
            r.0 == self@.pixels.len() / self@.width + 1,
            r.1 == self@.pixels.len() % self@.width,
            r.2 == Ordering::Less <==> self@.pixels.len() < self@.area(),
            r.2 == Ordering::Equal <==> self@.complete(),
            r.2 == Ordering::Greater <==> self@.pixels.len() > self@.area(),
    {
        let count: usize = self.pixels.len();
        let line: usize = count / self.width + 1;
        let col: usize = count % self.width;
        let check_res = match self.area() {
            None => Ordering::Less,
            Some(area) => if count < area {
                Ordering::Less
            } else if count == area {
                Ordering::Equal
            } else {
                Ordering::Greater
            },
        };
        (line, col, check_res)
    }

    /// Tells whether the grid is exactly full.
    pub fn check(&self) -> (r: Result<(), ImageErr>)
        ensures
            match r {
                Ok(_) => self@.complete(),
                Err(e) => e == ImageErr::InvalidPixelsErr && !self@.complete(),
            },
    {
        let count: usize = self.pixels.len();
        match self.area() {
            Some(area) => if area == count {
                Ok(())
            } else {
                Err(ImageErr::InvalidPixelsErr)
            },
            None => Err(ImageErr::InvalidPixelsErr),
        }
    }

    /// The image text of a grid that is exactly full: the header, then the
    /// line of each pixel in the order of arrival. Of any other grid no text
    /// is made.
    pub fn produce(&self) -> (r: Result<Vec<u8>, ImageErr>)
        ensures
            match r {
                Ok(bytes) => self@.complete() && bytes@ == self@.text(),
                Err(e) => e == ImageErr::InvalidPixelsErr && !self@.complete(),
            },
    {
        self.check()?;
        let mut out: Vec<u8> = Vec::new();
        ppm::push_header(&mut out, self.width, self.height);
        let mut i: usize = 0;
        while i < self.pixels.len()
            invariant
                i <= self.pixels.len(),
                out@ == ppm::header(self@.width, self@.height) + ppm::body(
                    all_levels(self@.pixels.take(i as int)),
                ),
            decreases self.pixels.len() - i,
        {
            let shades = self.pixels[i].scale_rgb();
            ppm::push_line(&mut out, shades);
            proof {
                let before = all_levels(self@.pixels.take(i as int));
                let after = all_levels(self@.pixels.take(i + 1));
                assert(after.drop_last() =~= before);
                assert(after[i as int] == shades);
            }
            i += 1;
        }
        assert(self@.pixels.take(i as int) =~= self@.pixels);
        Ok(out)
    }

    /// A walk over a copy of the pixels, in the order of their arrival.
    pub fn iter(&self) -> (r: ImgPixelIter)
        ensures
            r@ == (0nat, self@.pixels),
    {
        let mut pixels: Vec<ImgPixel> = Vec::new();
        let mut i: usize = 0;
        while i < self.pixels.len()
            invariant
                i <= self.pixels.len(),
                pixels@ == self.pixels@.take(i as int),
            decreases self.pixels.len() - i,
        {
            pixels.push(self.pixels[i]);
            assert(pixels@ =~= self.pixels@.take(i + 1));
            i += 1;
        }
        assert(pixels@ =~= self.pixels@);
        ImgPixelIter { index: 0, pixels }
    }
}

/// A walk over the pixels of an image.
#[derive(Debug)]
pub struct ImgPixelIter {
    index: usize,
    pixels: Vec<ImgPixel>,
}

impl View for ImgPixelIter {
    type V = (nat, Seq<(Sample, Sample, Sample)>);

    /// The number of pixels handed out, and all the pixels of the walk.
    closed spec fn view(&self) -> (nat, Seq<(Sample, Sample, Sample)>) {
        (self.index as nat, self.pixels@.map_values(|p: ImgPixel| p@))
    }
}

impl ImgPixelIter {
    /// Hands out the next pixel, or nothing when all have been handed out.
    pub fn next(&mut self) -> (r: Option<ImgPixel>)
        ensures
            match r {
                Some(p) => old(self)@.0 < old(self)@.1.len() && p@ == old(self)@.1[old(self)@.0 as int]
                    && final(self)@ == (old(self)@.0 + 1, old(self)@.1),
                None => old(self)@.0 >= old(self)@.1.len() && final(self)@ == old(self)@,
            },
    {
        if self.index >= self.pixels.len() {
            return None;
        }
        self.index += 1;
        Some(self.pixels[self.index - 1])
    }
}

} // verus!
