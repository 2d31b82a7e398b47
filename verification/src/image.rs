//! The pixel buffer, the format sniffer, and the PNG decode and encode
//! pipeline.

use vstd::prelude::*;
use crate::limits::Limits;
use crate::png_io;
use crate::png_io::{png_encoded, png_info_of, png_row_of};
use crate::rgb::{spec_as_red, spec_bytes, spec_invert, spec_mean, spec_quantize, Rgb};

verus! {

/// A container format recognised by its magic-byte signature. Only PNG is
/// decoded; the others are detected so that they can be rejected cleanly.
#[derive(Clone, Copy, PartialEq, Eq, Structural, Debug, Hash)]
pub enum ImageFormat {
    Png,
    Jpeg,
    Gif,
    WebP,
}

/// Why a decode (or encode) failed. All outcomes are terminal: no partial
/// buffer is ever returned.
#[derive(Clone, Copy, PartialEq, Eq, Structural, Debug)]
pub enum ImageError {
    /// The bytes match no supported signature, or the image uses a PNG
    /// feature this library declines to handle.
    Unsupported,
    /// The byte stream does not parse as a valid PNG.
    CorruptedImage,
    /// The decode would exceed the configured resource limits.
    Limits,
}

impl ImageError {
    /// Every failure of the `png` reader surfaces as a corrupted stream.
    pub fn from_png(_e: png::DecodingError) -> (r: ImageError)
        ensures
            r == ImageError::CorruptedImage,
    {
        ImageError::CorruptedImage
    }
}

/// The eight-byte PNG signature is a prefix of `s`.
pub open spec fn spec_is_png(s: Seq<u8>) -> bool {
    &&& s.len() >= 8
    &&& s[0] == 0x89u8
    &&& s[1] == 0x50u8
    &&& s[2] == 0x4eu8
    &&& s[3] == 0x47u8
    &&& s[4] == 0x0du8
    &&& s[5] == 0x0au8
    &&& s[6] == 0x1au8
    &&& s[7] == 0x0au8
}

/// The three-byte JPEG start-of-image marker is a prefix of `s`.
pub open spec fn spec_is_jpeg(s: Seq<u8>) -> bool {
    s.len() >= 3 && s[0] == 0xffu8 && s[1] == 0xd8u8 && s[2] == 0xffu8
}

/// `GIF89a` or `GIF87a` is a prefix of `s`.
pub open spec fn spec_is_gif(s: Seq<u8>) -> bool {
    &&& s.len() >= 6
    &&& s[0] == 0x47u8
    &&& s[1] == 0x49u8
    &&& s[2] == 0x46u8
    &&& s[3] == 0x38u8
    &&& (s[4] == 0x39u8 || s[4] == 0x37u8)
    &&& s[5] == 0x61u8
}

/// The `RIFF` container tag is a prefix of `s` (necessary for WebP, and the
/// only check made).
pub open spec fn spec_is_riff(s: Seq<u8>) -> bool {
    s.len() >= 4 && s[0] == 0x52u8 && s[1] == 0x49u8 && s[2] == 0x46u8 && s[3] == 0x46u8
}

/// The format whose signature is a prefix of `s`, checked in a fixed order,
/// or `Unsupported` when none matches.
pub open spec fn spec_guess_format(s: Seq<u8>) -> Result<ImageFormat, ImageError> {
    if spec_is_png(s) {
        Ok(ImageFormat::Png)
    } else if spec_is_jpeg(s) {
        Ok(ImageFormat::Jpeg)
    } else if spec_is_gif(s) {
        Ok(ImageFormat::Gif)
    } else if spec_is_riff(s) {
        Ok(ImageFormat::WebP)
    } else {
        Err(ImageError::Unsupported)
    }
}

/// The byte budget handed to the PNG reader: the configured allocation
/// ceiling where one is set (clamped to the machine word), else the `png`
/// crate's own 64 MiB default.
pub open spec fn decode_budget(max_alloc: Option<u64>) -> int {
    match max_alloc {
        Some(m) => if m > usize::MAX as u64 {
            usize::MAX as int
        } else {
            m as int
        },
        None => PNG_DEFAULT_BYTE_BUDGET as int,
    }
}

pub const PNG_DEFAULT_BYTE_BUDGET: u64 = 67108864;

/// The header facts `(width, height, samples, depth, interlaced)` describe
/// an image this decoder handles: 8-bit samples, not interlaced, one to
/// four samples per pixel.
pub open spec fn supported_meta(meta: (u32, u32, usize, u8, bool)) -> bool {
    &&& meta.3 == 8
    &&& !meta.4
    &&& 1 <= meta.2 <= 4
}

/// The bytes a `w` by `h` decode must reserve: `3 * w * h`, saturated.
pub open spec fn needed_bytes(w: u32, h: u32) -> u64 {
    if 3 * (w as int) * (h as int) > u64::MAX as int {
        u64::MAX
    } else {
        (3 * (w as int) * (h as int)) as u64
    }
}

/// The declared dimensions respect the configured per-dimension ceilings.
pub open spec fn within_dimension_limits(w: u32, h: u32, l: Limits) -> bool {
    &&& match l.max_image_width {
        Some(mw) => w <= mw,
        None => true,
    }
    &&& match l.max_image_height {
        Some(mh) => h <= mh,
        None => true,
    }
}

/// Reserving the decode's bytes fits in the remaining allocation budget.
pub open spec fn within_alloc_budget(w: u32, h: u32, l: Limits) -> bool {
    match l.max_alloc {
        Some(m) => needed_bytes(w, h) <= m,
        None => true,
    }
}

/// The allocation budget after a successful reservation for a `w` by `h`
/// decode.
pub open spec fn spent_budget(max_alloc: Option<u64>, w: u32, h: u32) -> Option<u64> {
    match max_alloc {
        Some(m) => Some((m - needed_bytes(w, h)) as u64),
        None => None,
    }
}

/// The pixel a decoded row yields at index `i`, for rows of `samples` bytes
/// per pixel: grayscale replicates its one sample, an alpha sample is
/// dropped, and three-or-more samples give the RGB triple.
pub open spec fn sample_pixel(row: Seq<u8>, samples: int, i: int) -> Rgb {
    if samples >= 3 {
        Rgb { r: row[samples * i], g: row[samples * i + 1], b: row[samples * i + 2] }
    } else {
        Rgb { r: row[samples * i], g: row[samples * i], b: row[samples * i] }
    }
}

/// All pixels of one decoded row.
pub open spec fn row_pixels(row: Seq<u8>, samples: int) -> Seq<Rgb> {
    Seq::new(((row.len() as int) / samples) as nat, |i: int| sample_pixel(row, samples, i))
}

/// The pixels of the first `h` rows that `png_row_of` names, in scan order;
/// a missing row contributes nothing (the decoder aborts there anyway).
pub open spec fn decoded_rows(bytes: Seq<u8>, budget: int, h: int, samples: int) -> Seq<Rgb>
    decreases h,
{
    if h <= 0 {
        Seq::empty()
    } else {
        decoded_rows(bytes, budget, h - 1, samples) + match png_row_of(bytes, budget, h - 1) {
            Some(row) => row_pixels(row, samples),
            None => Seq::empty(),
        }
    }
}

/// The flat byte stream of a pixel sequence: three bytes per pixel, in
/// order.
pub open spec fn image_bytes(s: Seq<Rgb>) -> Seq<u8>
    decreases s.len(),
{
    if s.len() == 0 {
        Seq::empty()
    } else {
        image_bytes(s.drop_last()) + spec_bytes(s.last())
    }
}

pub proof fn lemma_image_bytes_len(s: Seq<Rgb>)
    ensures
        image_bytes(s).len() == 3 * s.len(),
    decreases s.len(),
{
    if s.len() > 0 {
        lemma_image_bytes_len(s.drop_last());
    }
}

/// Byte `3i`, `3i + 1`, `3i + 2` of the encoded stream are the channels of
/// pixel `i`.
proof fn lemma_image_bytes_index(s: Seq<Rgb>, i: int)
    requires
        0 <= i < s.len(),
    ensures
        image_bytes(s).len() == 3 * s.len(),
        image_bytes(s)[3 * i] == s[i].r,
        image_bytes(s)[3 * i + 1] == s[i].g,
        image_bytes(s)[3 * i + 2] == s[i].b,
    decreases s.len(),
{
    lemma_image_bytes_len(s);
    if i < s.len() - 1 {
        lemma_image_bytes_index(s.drop_last(), i);
    } else {
        lemma_image_bytes_len(s.drop_last());
    }
}

/// Grouping the flat byte stream of a buffer back into RGB triples restores
/// the pixel sequence exactly: the byte-level half of the decode/encode
/// round trip.
pub proof fn lemma_bytes_pixels_round_trip(s: Seq<Rgb>)
    ensures
        row_pixels(image_bytes(s), 3) == s,
{
    lemma_image_bytes_len(s);
    vstd::arithmetic::div_mod::lemma_div_multiples_vanish(s.len() as int, 3);
    assert forall|i: int| 0 <= i < s.len() implies row_pixels(image_bytes(s), 3)[i] == s[i] by {
        lemma_image_bytes_index(s, i);
    }
    assert(row_pixels(image_bytes(s), 3) =~= s);
}

/// Every pixel reduced to its red channel.
pub open spec fn reddened(s: Seq<Rgb>) -> Seq<Rgb> {
    s.map_values(|c: Rgb| spec_as_red(c))
}

/// Every pixel replaced by its neutral-gray mean.
pub open spec fn meaned(s: Seq<Rgb>) -> Seq<Rgb> {
    s.map_values(|c: Rgb| spec_mean(c))
}

/// Every channel of every pixel rounded to an endpoint.
pub open spec fn quantized(s: Seq<Rgb>) -> Seq<Rgb> {
    s.map_values(|c: Rgb| spec_quantize(c))
}

/// Every pixel inverted channel-wise.
pub open spec fn inverted(s: Seq<Rgb>) -> Seq<Rgb> {
    s.map_values(|c: Rgb| spec_invert(c))
}

/// An owned rectangular grid of pixels: a flat row-major sequence of
/// exactly `width * height` pixels.
pub struct Image {
    data: Vec<Rgb>,
    dimensions: (u32, u32),
}

impl Image {
    /// The pixel sequence, row-major: the pixel at `(x, y)` sits at
    /// `y * width + x`.
    pub closed spec fn pixels(&self) -> Seq<Rgb> {
        self.data@
    }

    /// `(width, height)` in pixels.
    pub closed spec fn dims(&self) -> (u32, u32) {
        self.dimensions
    }

    /// The buffer invariant: the flat sequence holds one pixel per grid
    /// cell.
    pub open spec fn wf(&self) -> bool {
        self.pixels().len() == self.dims().0 as int * self.dims().1 as int
    }

    /// An image from an explicit pixel sequence.
    pub fn from_pixels(data: Vec<Rgb>, width: u32, height: u32) -> (img: Image)
        requires
            data@.len() == width as int * height as int,
        ensures
            img.wf(),
            img.pixels() == data@,
            img.dims() == (width, height),
    {
        Image { data, dimensions: (width, height) }
    }

    /// The pixels as a flat slice, row-major.
    pub fn as_slice(&self) -> (s: &[Rgb])
        ensures
            s@ == self.pixels(),
    {
        self.data.as_slice()
    }

    pub fn width(&self) -> (w: usize)
        ensures
            w == self.dims().0 as int,
    {
        self.dimensions.0 as usize
    }

    pub fn height(&self) -> (h: usize)
        ensures
            h == self.dims().1 as int,
    {
        self.dimensions.1 as usize
    }

    pub fn get_pixel(&self, x: u32, y: u32) -> (c: Rgb)
        requires
            self.wf(),
            x < self.dims().0,
            y < self.dims().1,
        ensures
            c == self.pixels()[y as int * self.dims().0 as int + x as int],
    {
        let n: usize = self.data.len();
        proof {
            let w = self.dims().0 as int;
            let h = self.dims().1 as int;
            assert((y as int) * w + (x as int) < w * h) by (nonlinear_arith)
                requires
                    0 <= (x as int) < w,
                    0 <= (y as int) < h,
            ;
        }
        let idx: usize = (y as usize) * (self.dimensions.0 as usize) + (x as usize);
        self.data[idx]
    }

    pub fn set_pixel(&mut self, x: u32, y: u32, color: Rgb)
        requires
            old(self).wf(),
            x < old(self).dims().0,
            y < old(self).dims().1,
        ensures
            final(self).wf(),
            final(self).dims() == old(self).dims(),
            final(self).pixels() == old(self).pixels().update(
                y as int * old(self).dims().0 as int + x as int,
                color,
            ),
    {
        let n: usize = self.data.len();
        proof {
            let w = self.dims().0 as int;
            let h = self.dims().1 as int;
            assert((y as int) * w + (x as int) < w * h) by (nonlinear_arith)
                requires
                    0 <= (x as int) < w,
                    0 <= (y as int) < h,
            ;
        }
        let idx: usize = (y as usize) * (self.dimensions.0 as usize) + (x as usize);
        self.data[idx] = color;
    }

    /// A new image with every pixel reduced to its red channel.
    pub fn into_reds(&self) -> (img: Image)
        requires
            self.wf(),
        ensures
            img.wf(),
            img.dims() == self.dims(),
            img.pixels() == reddened(self.pixels()),
    {
        let mut out: Vec<Rgb> = Vec::new();
        let mut i: usize = 0;
        while i < self.data.len()
            invariant
                i <= self.data.len(),
                out@.len() == i,
                forall|j: int| 0 <= j < i ==> out@[j] == spec_as_red(self.data@[j]),
            decreases self.data.len() - i,
        {
            out.push(self.data[i].as_red());
            i += 1;
        }
        proof {
            assert(out@ =~= reddened(self.pixels()));
        }
        Image { data: out, dimensions: self.dimensions }
    }

    /// A new image with every pixel replaced by its neutral-gray mean.
    pub fn mean(&self) -> (img: Image)
        requires
            self.wf(),
        ensures
            img.wf(),
            img.dims() == self.dims(),
            img.pixels() == meaned(self.pixels()),
    {
        let mut out: Vec<Rgb> = Vec::new();
        let mut i: usize = 0;
        while i < self.data.len()
            invariant
                i <= self.data.len(),
                out@.len() == i,
                forall|j: int| 0 <= j < i ==> out@[j] == spec_mean(self.data@[j]),
            decreases self.data.len() - i,
        {
            out.push(self.data[i].mean());
            i += 1;
        }
        proof {
            assert(out@ =~= meaned(self.pixels()));
        }
        Image { data: out, dimensions: self.dimensions }
    }

    /// A new image with every channel rounded to an endpoint.
    pub fn quantize(&self) -> (img: Image)
        requires
            self.wf(),
        ensures
            img.wf(),
            img.dims() == self.dims(),
            img.pixels() == quantized(self.pixels()),
    {
        let mut out: Vec<Rgb> = Vec::new();
        let mut i: usize = 0;
        while i < self.data.len()
            invariant
                i <= self.data.len(),
                out@.len() == i,
                forall|j: int| 0 <= j < i ==> out@[j] == spec_quantize(self.data@[j]),
            decreases self.data.len() - i,
        {
            out.push(self.data[i].quantize());
            i += 1;
        }
        proof {
            assert(out@ =~= quantized(self.pixels()));
        }
        Image { data: out, dimensions: self.dimensions }
    }

    /// A new image with every pixel inverted channel-wise.
    pub fn invert(&self) -> (img: Image)
        requires
            self.wf(),
        ensures
            img.wf(),
            img.dims() == self.dims(),
            img.pixels() == inverted(self.pixels()),
    {
        let mut out: Vec<Rgb> = Vec::new();
        let mut i: usize = 0;
        while i < self.data.len()
            invariant
                i <= self.data.len(),
                out@.len() == i,
                forall|j: int| 0 <= j < i ==> out@[j] == spec_invert(self.data@[j]),
            decreases self.data.len() - i,
        {
            out.push(self.data[i].invert());
            i += 1;
        }
        proof {
            assert(out@ =~= inverted(self.pixels()));
        }
        Image { data: out, dimensions: self.dimensions }
    }

    /// The flat 8-bit RGB byte stream of the buffer: three bytes per pixel,
    /// in scan order.
    pub fn to_u8(&self) -> (v: Vec<u8>)
        ensures
            v@ == image_bytes(self.pixels()),
    {
        let mut v: Vec<u8> = Vec::new();
        let mut i: usize = 0;
        while i < self.data.len()
            invariant
                i <= self.data.len(),
                v@ == image_bytes(self.data@.take(i as int)),
            decreases self.data.len() - i,
        {
            proof {
                let t = self.data@.take(i as int + 1);
                assert(t.drop_last() =~= self.data@.take(i as int));
                assert(image_bytes(t) == image_bytes(t.drop_last()) + spec_bytes(t.last()));
            }
            let c = self.data[i];
            v.push(c.r);
            v.push(c.g);
            v.push(c.b);
            proof {
                assert(v@ =~= image_bytes(self.data@.take(i as int + 1)));
            }
            i += 1;
        }
        proof {
            assert(self.data@.take(self.data@.len() as int) =~= self.data@);
        }
        v
    }

    /// The format whose registered signature is a prefix of `buffer`,
    /// checked in a fixed order, or `Unsupported` when none matches.
    pub fn guess_format(buffer: &[u8]) -> (r: Result<ImageFormat, ImageError>)
        ensures
            r == spec_guess_format(buffer@),
    {
        let n = buffer.len();
        if n >= 8 && buffer[0] == 0x89 && buffer[1] == 0x50 && buffer[2] == 0x4e && buffer[3]
            == 0x47 && buffer[4] == 0x0d && buffer[5] == 0x0a && buffer[6] == 0x1a && buffer[7]
            == 0x0a {
            Ok(ImageFormat::Png)
        } else if n >= 3 && buffer[0] == 0xff && buffer[1] == 0xd8 && buffer[2] == 0xff {
            Ok(ImageFormat::Jpeg)
        } else if n >= 6 && buffer[0] == 0x47 && buffer[1] == 0x49 && buffer[2] == 0x46
            && buffer[3] == 0x38 && (buffer[4] == 0x39 || buffer[4] == 0x37) && buffer[5] == 0x61 {
            Ok(ImageFormat::Gif)
        } else if n >= 4 && buffer[0] == 0x52 && buffer[1] == 0x49 && buffer[2] == 0x46
            && buffer[3] == 0x46 {
            Ok(ImageFormat::WebP)
        } else {
            Err(ImageError::Unsupported)
        }
    }

    /// Decode PNG bytes into a pixel buffer under `limits`.
    ///
    /// The format is sniffed first; non-PNG bytes are `Unsupported`. The
    /// declared dimensions are checked against the configured ceilings and
    /// the exact output size (`3 * width * height` bytes) is reserved from
    /// the allocation budget before any row is read. Rows are then streamed
    /// in scan order and normalised to RGB triples; any stream failure
    /// aborts with `CorruptedImage` and returns no partial buffer.
    pub fn load(buf: &[u8], limits: &mut Limits) -> (r: Result<Image, ImageError>)
        ensures
            final(limits).max_image_width == old(limits).max_image_width,
            final(limits).max_image_height == old(limits).max_image_height,
            spec_guess_format(buf@) != Ok::<ImageFormat, ImageError>(ImageFormat::Png) ==> r
                == Err::<Image, ImageError>(ImageError::Unsupported) && *final(limits) == *old(
                limits,
            ),
            spec_guess_format(buf@) == Ok::<ImageFormat, ImageError>(ImageFormat::Png)
                ==> match png_info_of(buf@, decode_budget(old(limits).max_alloc)) {
                None => r == Err::<Image, ImageError>(ImageError::CorruptedImage) && *final(limits)
                    == *old(limits),
                Some(meta) => if !supported_meta(meta) {
                    r == Err::<Image, ImageError>(ImageError::Unsupported) && *final(limits)
                        == *old(limits)
                } else if !within_dimension_limits(meta.0, meta.1, *old(limits)) {
                    r == Err::<Image, ImageError>(ImageError::Limits) && *final(limits) == *old(
                        limits,
                    )
                } else if !within_alloc_budget(meta.0, meta.1, *old(limits)) {
                    r == Err::<Image, ImageError>(ImageError::Limits) && *final(limits) == *old(
                        limits,
                    )
                } else {
                    &&& final(limits).max_alloc == spent_budget(
                        old(limits).max_alloc,
                        meta.0,
                        meta.1,
                    )
                    &&& match r {
                        Ok(img) => {
                            &&& img.wf()
                            &&& img.dims() == (meta.0, meta.1)
                            &&& img.dims().0 >= 1
                            &&& img.dims().1 >= 1
                            &&& img.pixels() == decoded_rows(
                                buf@,
                                decode_budget(old(limits).max_alloc),
                                meta.1 as int,
                                meta.2 as int,
                            )
                            &&& forall|j: int|
                                0 <= j < meta.1 as int ==> png_row_of(
                                    buf@,
                                    decode_budget(old(limits).max_alloc),
                                    j,
                                ) is Some
                        },
                        Err(e) => e == ImageError::CorruptedImage && exists|j: int|
                            0 <= j < meta.1 as int && png_row_of(
                                buf@,
                                decode_budget(old(limits).max_alloc),
                                j,
                            ) is None,
                    }
                },
            },
    {
        match Image::guess_format(buf) {
            Ok(ImageFormat::Png) => {}
            _ => {
                return Err(ImageError::Unsupported);
            }
        }
        let max_bytes: usize = match limits.max_alloc {
            Some(m) => if m > usize::MAX as u64 {
                usize::MAX
            } else {
                m as usize
            },
            None => PNG_DEFAULT_BYTE_BUDGET as usize,
        };
        assert(max_bytes as int == decode_budget(limits.max_alloc));
        let mut rd = match png_io::png_open(buf, max_bytes) {
            Ok(rd) => rd,
            Err(e) => {
                return Err(e);
            }
        };
        if rd.depth != 8 || rd.interlaced || rd.samples < 1 || rd.samples > 4 {
            return Err(ImageError::Unsupported);
        }
        match limits.max_image_width {
            Some(mw) => if rd.width > mw {
                return Err(ImageError::Limits);
            },
            None => {}
        }
        match limits.max_image_height {
            Some(mh) => if rd.height > mh {
                return Err(ImageError::Limits);
            },
            None => {}
        }
        let width = rd.width;
        let height = rd.height;
        let samples = rd.samples;
        proof {
            assert((width as int) * (height as int) < 18446744073709551616int) by (nonlinear_arith)
                requires
                    width as int <= 4294967295int,
                    height as int <= 4294967295int,
            ;
        }
        let total_pixels: u64 = (width as u64) * (height as u64);
        proof {
            assert(3 * (width as int) * (height as int) == 3 * ((width as int) * (height as int)))
                by (nonlinear_arith);
        }
        let total_bytes: u64 = if total_pixels <= u64::MAX / 3 {
            3 * total_pixels
        } else {
            u64::MAX
        };
        assert(total_bytes == needed_bytes(width, height));
        match limits.reserve(total_bytes) {
            Ok(()) => {}
            Err(e) => {
                return Err(e);
            }
        }
        let ghost budget: int = max_bytes as int;
        let mut data: Vec<Rgb> = Vec::new();
        let mut y: u32 = 0;
        while y < height
            invariant
                y <= height,
                1 <= samples <= 4,
                rd.width == width,
                rd.height == height,
                rd.samples == samples,
                rd.depth == 8,
                !rd.interlaced,
                rd.src@ == buf@,
                rd.budget@ == budget,
                rd.rows_read@ == y as int,
                budget == decode_budget(old(limits).max_alloc),
                spec_guess_format(buf@) == Ok::<ImageFormat, ImageError>(ImageFormat::Png),
                png_info_of(buf@, budget) == Some((width, height, samples, 8u8, false)),
                within_dimension_limits(width, height, *old(limits)),
                within_alloc_budget(width, height, *old(limits)),
                limits.max_image_width == old(limits).max_image_width,
                limits.max_image_height == old(limits).max_image_height,
                limits.max_alloc == spent_budget(old(limits).max_alloc, width, height),
                data@ == decoded_rows(buf@, budget, y as int, samples as int),
                data@.len() == y as int * width as int,
                forall|j: int| 0 <= j < y as int ==> png_row_of(buf@, budget, j) is Some,
            decreases height - y,
        {
            match png_io::png_next_row(&mut rd) {
                Ok(Some(row)) => {
                    proof {
                        assert((row@.len() as int) % (samples as int) == 0) by (nonlinear_arith)
                            requires
                                row@.len() == width as int * samples as int,
                                1 <= samples as int <= 4,
                        ;
                    }
                    let mut px = row_to_pixels(&row, samples);
                    proof {
                        vstd::arithmetic::div_mod::lemma_div_multiples_vanish(
                            width as int,
                            samples as int,
                        );
                        assert(samples as int * width as int == row@.len()) by (nonlinear_arith)
                            requires
                                row@.len() == width as int * samples as int,
                        ;
                        assert(px@.len() == width as int);
                        assert(decoded_rows(buf@, budget, y as int + 1, samples as int)
                            == decoded_rows(buf@, budget, y as int, samples as int) + row_pixels(
                            row@,
                            samples as int,
                        ));
                        assert((y as int + 1) * (width as int) == y as int * (width as int) + (
                        width as int)) by (nonlinear_arith);
                    }
                    data.append(&mut px);
                }
                Ok(None) => {
                    return Err(ImageError::CorruptedImage);
                }
                Err(_) => {
                    return Err(ImageError::CorruptedImage);
                }
            }
            y += 1;
        }
        proof {
            assert(height as int * width as int == width as int * height as int) by (
            nonlinear_arith);
        }
        Ok(Image::from_pixels(data, width, height))
    }

    /// Encode the buffer as 8-bit RGB PNG bytes. A buffer with a zero
    /// dimension cannot be represented as a PNG and is `Unsupported`.
    pub fn encode(&self) -> (r: Result<Vec<u8>, ImageError>)
        requires
            self.wf(),
        ensures
            (self.dims().0 >= 1 && self.dims().1 >= 1) <==> r is Ok,
            match r {
                Ok(v) => v@ == png_encoded(self.dims().0, self.dims().1, image_bytes(self.pixels()))
                    && spec_guess_format(v@) == Ok::<ImageFormat, ImageError>(ImageFormat::Png),
                Err(e) => e == ImageError::Unsupported,
            },
    {
        if self.dimensions.0 == 0 || self.dimensions.1 == 0 {
            return Err(ImageError::Unsupported);
        }
        let bytes = self.to_u8();
        proof {
            lemma_image_bytes_len(self.pixels());
            assert(3 * (self.dims().0 as int * self.dims().1 as int) == 3 * self.dims().0 as int
                * self.dims().1 as int) by (nonlinear_arith);
        }
        match png_io::png_encode_rgb(self.dimensions.0, self.dimensions.1, &bytes) {
            Ok(v) => Ok(v),
            Err(_) => Err(ImageError::Unsupported),
        }
    }
}

/// The pixels of one decoded row, normalised to RGB: rows of one or two
/// samples per pixel replicate the gray sample (dropping alpha), rows of
/// three or four take the RGB triple (dropping alpha).
pub fn row_to_pixels(row: &Vec<u8>, samples: usize) -> (r: Vec<Rgb>)
    requires
        1 <= samples <= 4,
        (row@.len() as int) % (samples as int) == 0,
    ensures
        r@ == row_pixels(row@, samples as int),
{
    let n: usize = row.len() / samples;
    proof {
        vstd::arithmetic::div_mod::lemma_fundamental_div_mod(row@.len() as int, samples as int);
    }
    let mut out: Vec<Rgb> = Vec::new();
    let mut i: usize = 0;
    while i < n
        invariant
            1 <= samples <= 4,
            i <= n,
            row@.len() <= usize::MAX as int,
            row@.len() == (samples as int) * (n as int),
            n as int == (row@.len() as int) / (samples as int),
            out@.len() == i,
            forall|j: int| 0 <= j < i ==> out@[j] == sample_pixel(row@, samples as int, j),
        decreases n - i,
    {
        proof {
            assert((i as int) * (samples as int) + (samples as int) <= (n as int) * (
            samples as int)) by (nonlinear_arith)
                requires
                    (i as int) < (n as int),
                    0 <= (samples as int),
            ;
            assert((n as int) * (samples as int) == (samples as int) * (n as int)) by (
            nonlinear_arith);
            assert((samples as int) * (i as int) == (i as int) * (samples as int)) by (
            nonlinear_arith);
        }
        let idx: usize = i * samples;
        let px = if samples >= 3 {
            Rgb { r: row[idx], g: row[idx + 1], b: row[idx + 2] }
        } else {
            let v = row[idx];
            Rgb { r: v, g: v, b: v }
        };
        proof {
            assert(px == sample_pixel(row@, samples as int, i as int));
        }
        out.push(px);
        i += 1;
    }
    proof {
        assert(out@ =~= row_pixels(row@, samples as int));
    }
    out
}

/// Inverting a buffer twice gives the original buffer back.
pub proof fn lemma_invert_involution(s: Seq<Rgb>)
    ensures
        inverted(inverted(s)) == s,
{
    assert forall|i: int| 0 <= i < s.len() implies inverted(inverted(s))[i] == s[i] by {
    }
    assert(inverted(inverted(s)) =~= s);
}

/// Every pixel of a reddened buffer has zero green and blue, and its red
/// channel unchanged.
pub proof fn lemma_redden_channels(s: Seq<Rgb>, i: int)
    requires
        0 <= i < s.len(),
    ensures
        reddened(s).len() == s.len(),
        reddened(s)[i].g == 0,
        reddened(s)[i].b == 0,
        reddened(s)[i].r == s[i].r,
{
}

/// Every pixel of a mean-grayscaled buffer has all three channels equal,
/// and equal to the nearest representable mean of the source pixel's
/// channels.
pub proof fn lemma_mean_channels(s: Seq<Rgb>, i: int)
    requires
        0 <= i < s.len(),
    ensures
        meaned(s).len() == s.len(),
        meaned(s)[i].r == meaned(s)[i].g,
        meaned(s)[i].g == meaned(s)[i].b,
        meaned(s)[i].r == crate::rgb::mean3(s[i].r, s[i].g, s[i].b),
{
}

} // verus!
