//! The trusted boundary around the `png` crate.
//!
//! Everything the decoder and encoder learn from `png` flows through the
//! wrappers here. PNG decoding is deterministic: what the header parse and
//! each successive row read return is a function of the input bytes, the
//! byte budget given to the reader, and (for rows) the call index alone.
//! The spec functions `png_info_of`, `png_row_of` and `png_encoded` name
//! those results; the wrappers' contracts say no more about them than the
//! `png` sources show.

use vstd::prelude::*;
use crate::image::ImageError;

verus! {

/// What `png::Decoder::read_info` reports for the given bytes under the
/// given byte budget: `Some((width, height, samples per pixel, bits per
/// sample, interlaced))` of the output (post-expansion) image, or `None`
/// when reading the header fails.
pub uninterp spec fn png_info_of(bytes: Seq<u8>, budget: int) -> Option<(u32, u32, usize, u8, bool)>;

/// What the `y`-th call of `png::Reader::next_row` returns on a reader over
/// the given bytes and budget: `Some(row)` for a decoded row, `None` when
/// that call fails or reports the end of the image.
pub uninterp spec fn png_row_of(bytes: Seq<u8>, budget: int, y: int) -> Option<Seq<u8>>;

/// The PNG byte stream that the `png` encoder produces for an 8-bit RGB
/// image of the given dimensions and raw pixel bytes.
pub uninterp spec fn png_encoded(width: u32, height: u32, data: Seq<u8>) -> Seq<u8>;

#[verifier::external_type_specification]
#[verifier::external_body]
pub struct ExDecodingError(png::DecodingError);

/// The `png` crate's reader. Verus refuses a declaration of
/// `png::Reader<R>` itself (its `BufRead + Seek` bounds name traits Verus
/// does not know), so the reader sits in this one-field opaque struct.
#[verifier::external_body]
pub struct PngReaderHandle {
    inner: png::Reader<std::io::Cursor<Vec<u8>>>,
}

/// A streaming PNG row reader: the `png` crate's reader plus the header
/// facts the decoder works from, and (ghost) the bytes and budget it was
/// opened over and how many rows have been handed out.
pub struct PngRowReader {
    pub reader: PngReaderHandle,
    /// Declared image width in pixels.
    pub width: u32,
    /// Declared image height in pixels.
    pub height: u32,
    /// Samples (bytes, at 8-bit depth) per pixel of the output rows.
    pub samples: usize,
    /// Bits per sample of the output rows.
    pub depth: u8,
    /// Whether the image is interlaced (rows then come in passes).
    pub interlaced: bool,
    /// The bytes this reader was opened over.
    pub src: Ghost<Seq<u8>>,
    /// The byte budget this reader was opened with.
    pub budget: Ghost<int>,
    /// How many rows have been read so far.
    pub rows_read: Ghost<int>,
}

/// Relies on `png::Decoder::new_with_limits`, `set_transformations(EXPAND)`
/// and `read_info`: the header parse is a function of the bytes and the
/// budget; `read_info` rejects zero dimensions; `Reader::info` and
/// `Reader::output_color_type` report the declared size and the
/// post-expansion sample layout.
#[verifier::external_body]
pub fn png_open(buf: &[u8], max_bytes: usize) -> (r: Result<PngRowReader, ImageError>)
    ensures
        match r {
            Ok(rd) => {
                &&& png_info_of(buf@, max_bytes as int) == Some(
                    (rd.width, rd.height, rd.samples, rd.depth, rd.interlaced),
                )
                &&& rd.width >= 1
                &&& rd.height >= 1
                &&& rd.src@ == buf@
                &&& rd.budget@ == max_bytes as int
                &&& rd.rows_read@ == 0
            },
            Err(e) => {
                &&& png_info_of(buf@, max_bytes as int) is None
                &&& e == ImageError::CorruptedImage
            },
        },
{
    let cursor = std::io::Cursor::new(buf.to_vec());
    let mut decoder = png::Decoder::new_with_limits(cursor, png::Limits { bytes: max_bytes });
    decoder.set_transformations(png::Transformations::EXPAND);
    let reader = match decoder.read_info() {
        Ok(r) => r,
        Err(e) => return Err(ImageError::from_png(e)),
    };
    let ((width, height), interlaced) = (reader.info().size(), reader.info().interlaced);
    let (color, bits) = reader.output_color_type();
    let (samples, depth) = (color.samples(), bits as u8);
    Ok(PngRowReader {
        reader: PngReaderHandle { inner: reader }, width, height, samples, depth, interlaced,
        src: Ghost(buf@), budget: Ghost(max_bytes as int), rows_read: Ghost(0),
    })
}

/// Relies on `png::Reader::next_row`: each call returns the next processed
/// row; for a non-interlaced image at 8-bit output depth a row holds exactly
/// `width * samples` bytes (`output_line_size`); a failure or the end of the
/// image ends the stream.
#[verifier::external_body]
pub fn png_next_row(rd: &mut PngRowReader) -> (r: Result<Option<Vec<u8>>, ImageError>)
    ensures
        final(rd).width == old(rd).width,
        final(rd).height == old(rd).height,
        final(rd).samples == old(rd).samples,
        final(rd).depth == old(rd).depth,
        final(rd).interlaced == old(rd).interlaced,
        final(rd).src == old(rd).src,
        final(rd).budget == old(rd).budget,
        final(rd).rows_read@ == old(rd).rows_read@ + 1,
        match r {
            Ok(Some(v)) => {
                &&& png_row_of(old(rd).src@, old(rd).budget@, old(rd).rows_read@) == Some(v@)
                &&& !old(rd).interlaced && old(rd).depth == 8 ==> v@.len() == old(
                    rd,
                ).width as int * old(rd).samples as int
            },
            _ => png_row_of(old(rd).src@, old(rd).budget@, old(rd).rows_read@) is None,
        },
{
    match rd.reader.inner.next_row() {
        Ok(Some(row)) => Ok(Some(row.data().to_vec())),
        Ok(None) => Ok(None),
        Err(e) => Err(ImageError::from_png(e)),
    }
}

/// Relies on `png::Encoder` and `png::Writer`: for nonzero dimensions, RGB
/// colour, 8-bit depth and a data slice of exactly `3 * width * height`
/// bytes, every validation in the encoder passes, and writing into an
/// in-memory `Vec<u8>` cannot fail; the writer emits the eight-byte PNG
/// signature first.
#[verifier::external_body]
pub fn png_encode_rgb(width: u32, height: u32, data: &Vec<u8>) -> (r: Result<Vec<u8>, ImageError>)
    requires
        width >= 1,
        height >= 1,
        data@.len() == 3 * width as int * height as int,
    ensures
        match r {
            Ok(v) => v@ == png_encoded(width, height, data@)
                && crate::image::spec_guess_format(v@) == Ok::<
                crate::image::ImageFormat,
                ImageError,
            >(crate::image::ImageFormat::Png),
            Err(_) => false,
        },
{
    let mut out: Vec<u8> = Vec::new();
    let mut encoder = png::Encoder::new(&mut out, width, height);
    encoder.set_color(png::ColorType::Rgb);
    encoder.set_depth(png::BitDepth::Eight);
    let mut writer = match encoder.write_header() {
        Ok(w) => w,
        Err(_) => return Err(ImageError::CorruptedImage),
    };
    if writer.write_image_data(data).is_err() {
        return Err(ImageError::CorruptedImage);
    }
    if writer.finish().is_err() {
        return Err(ImageError::CorruptedImage);
    }
    Ok(out)
}

} // verus!
