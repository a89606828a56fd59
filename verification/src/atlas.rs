//! Decoding of glyph and icon atlases, which are baked as grayscale PNG files.

use vstd::prelude::*;

use crate::renderer::TextureError;

verus! {

/// The identity of a baked atlas.
#[derive(Debug, Clone, Copy, PartialEq, Eq, Structural, Hash)]
pub struct AtlasId(pub u32);

/// A baked atlas: its identity and its PNG file.
#[derive(Debug, Clone, Copy)]
pub struct AtlasData<'a> {
    pub id: AtlasId,
    pub png_bytes: &'a [u8],
}

/// A decoded atlas: the pixels of `height` rows, without padding.
#[derive(Debug)]
pub struct AtlasImage {
    pub width: u32,
    pub height: u32,
    pub data: Vec<u8>,
}

/// Why an atlas could not be uploaded.
#[derive(Debug)]
pub enum AtlasError {
    /// The PNG header is not readable.
    Header(png::DecodingError),
    /// The size of the image does not fit in memory.
    UnknownSize,
    /// The pixels are not readable.
    Frame(png::DecodingError),
    /// There is no texture to upload into.
    Texture(TextureError),
}

/// A frame as the PNG decoder leaves it: the first `buffer_size` bytes of `data` are pixels.
#[derive(Debug)]
pub struct PngFrame {
    pub width: u32,
    pub height: u32,
    pub buffer_size: usize,
    pub data: Vec<u8>,
}

/// The error of the PNG decoder.
#[verifier::external_type_specification]
#[verifier::external_body]
pub struct ExDecodingError(png::DecodingError);

/// What `png::Reader::output_buffer_size` answers for a PNG file; nothing if its header is not
/// readable. Whether a size fits in memory is a matter of the word size, which is one throughout.
pub uninterp spec fn png_buffer_size(bytes: Seq<u8>) -> Option<Option<usize>>;

/// What `png::Reader::next_frame` makes of a PNG file and a buffer: width, height, number of
/// pixel bytes, and the buffer afterwards; nothing if it fails.
pub uninterp spec fn png_first_frame(bytes: Seq<u8>, buffer: Seq<u8>) -> Option<
    (u32, u32, usize, Seq<u8>),
>;

/// Calls `png::Decoder::read_info` on `bytes` and `png::Reader::output_buffer_size` on the
/// reader. Trusted: whether the header is readable, and the size, depend on `bytes` alone. Which
/// files have a readable header, and what the size is, is left unsaid, and so is the error.
#[verifier::external_body]
fn read_buffer_size(bytes: &[u8]) -> (r: Result<Option<usize>, png::DecodingError>)
    ensures
        r is Ok <==> png_buffer_size(bytes@) is Some,
        r matches Ok(size) ==> png_buffer_size(bytes@) == Some(size),
{
    let reader = png::Decoder::new(std::io::Cursor::new(bytes)).read_info()?;
    Ok(reader.output_buffer_size())
}

/// Calls `png::Reader::next_frame` on a reader of `bytes`, with `buffer` to decode into.
/// Trusted: the outcome depends on `bytes` and `buffer` alone, the buffer keeps its length, and
/// the frame that is reported fits in it, for the decoder refuses a buffer that is shorter than
/// the whole image and a frame that is larger than it. Which pixels come out is left unsaid, and
/// so is the error.
#[verifier::external_body]
fn read_first_frame(bytes: &[u8], buffer: Vec<u8>) -> (r: Result<PngFrame, png::DecodingError>)
    ensures
        r is Ok <==> png_first_frame(bytes@, buffer@) is Some,
        r matches Ok(f) ==> png_first_frame(bytes@, buffer@) == Some(
            (f.width, f.height, f.buffer_size, f.data@),
        ),
        r matches Ok(f) ==> f.data@.len() == buffer@.len() && f.buffer_size <= f.data@.len(),
{
    let mut data = buffer;
    let mut reader = png::Decoder::new(std::io::Cursor::new(bytes)).read_info()?;
    let info = reader.next_frame(&mut data)?;
    let buffer_size = info.buffer_size();
    Ok(PngFrame { width: info.width, height: info.height, buffer_size, data })
}

/// `n` zero bytes.
pub open spec fn zeros(n: nat) -> Seq<u8> {
    Seq::new(n, |i: int| 0u8)
}

/// The image in a decoded frame.
pub fn frame_image(frame: PngFrame) -> (image: AtlasImage)
    requires
        frame.buffer_size <= frame.data@.len(),
    ensures
        image.width == frame.width,
        image.height == frame.height,
        image.data@ == frame.data@.take(frame.buffer_size as int),
{
    let mut data = frame.data;
    data.truncate(frame.buffer_size);
    AtlasImage { width: frame.width, height: frame.height, data }
}

/// `r` is what decoding `bytes` gives. The frame is decoded into a zeroed buffer of the size that
/// the header announces, and the image is the part of it that the frame fills.
pub open spec fn decodes_to(bytes: Seq<u8>, r: Result<AtlasImage, AtlasError>) -> bool {
    match png_buffer_size(bytes) {
        None => r matches Err(AtlasError::Header(_)),
        Some(None) => r matches Err(AtlasError::UnknownSize),
        Some(Some(size)) => match png_first_frame(bytes, zeros(size as nat)) {
            None => r matches Err(AtlasError::Frame(_)),
            Some((width, height, used, data)) => r matches Ok(image) && image.width == width
                && image.height == height && image.data@ == data.take(used as int)
                && image.data@.len() == used,
        },
    }
}

/// Decode a PNG atlas.
pub fn decode_atlas(bytes: &[u8]) -> (r: Result<AtlasImage, AtlasError>)
    ensures
        decodes_to(bytes@, r),
{
    match read_buffer_size(bytes) {
        Err(e) => Err(AtlasError::Header(e)),
        Ok(None) => Err(AtlasError::UnknownSize),
        Ok(Some(size)) => {
            let buffer: Vec<u8> = vec![0u8; size];
            assert(buffer@ =~= zeros(size as nat));
            match read_first_frame(bytes, buffer) {
                Err(e) => Err(AtlasError::Frame(e)),
                Ok(frame) => Ok(frame_image(frame)),
            }
        },
    }
}

/// A decoded atlas is the first frame of the file, decoded into as many zeros as the header asks
/// for: its size is the frame's, and its pixels are the bytes that the frame filled, from the first
/// on. `i` is the place of any of them.
pub proof fn decoded_atlas_is_the_first_frame(
    bytes: Seq<u8>,
    size: usize,
    image: AtlasImage,
    i: int,
)
    requires
        png_buffer_size(bytes) == Some(Some(size)),
        decodes_to(bytes, Ok(image)),
    ensures
        png_first_frame(bytes, Seq::new(size as nat, |k: int| 0u8)) matches Some(
            (width, height, used, data),
        ) && {
            &&& image.width == width
            &&& image.height == height
            &&& image.data@.len() == used
            &&& 0 <= i < used && used <= data.len() ==> image.data@[i] == data[i]
        },
{
    assert(zeros(size as nat) =~= Seq::new(size as nat, |k: int| 0u8));
}

/// A file decodes exactly if its header is readable and asks for a size that fits, and its first
/// frame is readable; otherwise the error says which of these failed first.
pub proof fn decoding_fails_at_the_first_fault(bytes: Seq<u8>, r: Result<AtlasImage, AtlasError>)
    requires
        decodes_to(bytes, r),
    ensures
        png_buffer_size(bytes) is None <==> r matches Err(AtlasError::Header(_)),
        png_buffer_size(bytes) == Some(None::<usize>) <==> r matches Err(AtlasError::UnknownSize),
        !(r matches Err(AtlasError::Texture(_))),
{
}

} // verus!
