//! Re-encoding of image payloads.
//!
//! A payload that asks for conversion is first decoded as a WebP image and
//! brought to tightly packed 8-bit RGB samples; the samples are then handed
//! to the requested encoder. Decoding and JPEG XL encoding are functions of
//! their inputs alone; the AVIF encoder's output also depends on the thread
//! count of the machine, so of its bytes only the container's structure is
//! stated: the brand it carries and the pixel dimensions it records.

use vstd::prelude::*;
use vstd::string::StringSliceAdditionalSpecFns;

verus! {

/// A decoded raster image: its dimensions and its tightly packed 8-bit RGB
/// samples, three bytes per pixel.
pub struct DecodedImage {
    /// Width in pixels.
    pub width: u32,
    /// Height in pixels.
    pub height: u32,
    /// The samples, row by row, three bytes per pixel.
    pub rgb: Vec<u8>,
}

impl DecodedImage {
    /// The sample buffer holds exactly three bytes per pixel.
    pub open spec fn wf(self) -> bool {
        self.rgb@.len() == 3 * (self.width as nat) * (self.height as nat)
    }
}

/// What decoding the given bytes as a WebP image and converting the result
/// to 8-bit RGB returns: `Some((width, height, samples))` where the bytes
/// are a valid WebP image, `None` otherwise. The result depends on the
/// bytes alone.
pub uninterp spec fn webp_decoded(data: Seq<u8>) -> Option<(nat, nat, Seq<u8>)>;

/// Relies on image::load with image::ImageFormat::WebP and on
/// image::DynamicImage::to_rgb8: loading succeeds exactly on a valid WebP
/// payload, a decoded image has both dimensions at least one, and the RGB
/// buffer holds width * height * 3 bytes.
#[verifier::external_body]
fn decode_webp(data: &Vec<u8>) -> (r: Result<DecodedImage, ()>)
    ensures
        r is Ok <==> webp_decoded(data@) is Some,
        r is Ok ==> ({
            let t = webp_decoded(data@)->Some_0;
            &&& r->Ok_0.width as nat == t.0
            &&& r->Ok_0.height as nat == t.1
            &&& r->Ok_0.rgb@ == t.2
            &&& r->Ok_0.wf()
            &&& t.0 >= 1 && t.1 >= 1
        }),
{
    let cursor = std::io::Cursor::new(data.as_slice());
    match image::load(cursor, image::ImageFormat::WebP) {
        Ok(img) => {
            let rgb = img.to_rgb8();
            Ok(DecodedImage { width: rgb.width(), height: rgb.height(), rgb: rgb.into_raw() })
        },
        Err(_) => Err(()),
    }
}

/// What the JPEG XL encoder produces for an image of the given dimensions
/// with the given tightly packed 8-bit RGB samples. The result depends on
/// the arguments alone.
pub uninterp spec fn jxl_encoding(width: nat, height: nat, rgb: Seq<u8>) -> Seq<u8>;

/// Relies on zune_jpegxl::JxlSimpleEncoder::encode with
/// zune_core::options::EncoderOptions for 8-bit RGB samples: with a buffer
/// of matching length and no dimension of zero it succeeds exactly when
/// both dimensions are at least two, and writes the encoded stream to the
/// sink.
#[verifier::external_body]
fn encode_jxl(img: &DecodedImage) -> (r: Result<Vec<u8>, ()>)
    requires
        img.wf(),
        img.width >= 1,
        img.height >= 1,
    ensures
        r is Ok <==> (img.width >= 2 && img.height >= 2),
        r is Ok ==> r->Ok_0@ == jxl_encoding(img.width as nat, img.height as nat, img.rgb@),
{
    let options = zune_core::options::EncoderOptions::new(
        img.width as usize,
        img.height as usize,
        zune_core::colorspace::ColorSpace::RGB,
        zune_core::bit_depth::BitDepth::Eight,
    );
    let encoder = zune_jpegxl::JxlSimpleEncoder::new(img.rgb.as_slice(), options);
    let mut sink: Vec<u8> = Vec::new();
    match encoder.encode(&mut sink) {
        Ok(_) => Ok(sink),
        Err(_) => Err(()),
    }
}

/// The big-endian four-byte encoding of a value below 2^32.
pub open spec fn be32(v: nat) -> Seq<u8> {
    seq![
        ((v / 0x1000000) % 0x100) as u8,
        ((v / 0x10000) % 0x100) as u8,
        ((v / 0x100) % 0x100) as u8,
        (v % 0x100) as u8,
    ]
}

/// The bytes form an AVIF file that records the given pixel dimensions: an
/// ISO-BMFF stream whose first box is `ftyp` with major brand `avif`, and
/// which holds an `ispe` property box carrying the width and the height.
pub open spec fn is_avif_with_dimensions(bytes: Seq<u8>, width: nat, height: nat) -> bool {
    &&& bytes.len() >= 12
    &&& bytes.subrange(4, 8) == "ftyp".spec_bytes()
    &&& bytes.subrange(8, 12) == "avif".spec_bytes()
    &&& exists|i: int|
        0 <= i && i + 16 <= bytes.len() && #[trigger] bytes.subrange(i, i + 4)
            == "ispe".spec_bytes() && bytes.subrange(i + 8, i + 12) == be32(width)
            && bytes.subrange(i + 12, i + 16) == be32(height)
}

/// Relies on image::codecs::avif::AvifEncoder::write_image for 8-bit RGB
/// samples of matching buffer length, and on the container writer beneath
/// it, which always opens a success with an `ftyp` box of brand `avif` and
/// records the given dimensions in an `ispe` box. The compressed payload
/// depends on the thread count of the machine, so no more is stated of the
/// returned bytes.
#[verifier::external_body]
fn encode_avif(img: &DecodedImage) -> (r: Result<Vec<u8>, ()>)
    requires
        img.wf(),
        img.width >= 1,
        img.height >= 1,
    ensures
        r is Ok ==> is_avif_with_dimensions(r->Ok_0@, img.width as nat, img.height as nat),
{
    let mut sink = std::io::Cursor::new(Vec::new());
    let encoder = image::codecs::avif::AvifEncoder::new(&mut sink);
    match image::ImageEncoder::write_image(
        encoder,
        img.rgb.as_slice(),
        img.width,
        img.height,
        image::ExtendedColorType::Rgb8,
    ) {
        Ok(()) => Ok(sink.into_inner()),
        Err(_) => Err(()),
    }
}

/// Re-encode a WebP payload as JPEG XL.
pub fn webp_to_jxl(data: &Vec<u8>) -> (r: Result<Vec<u8>, ()>)
    ensures
        r is Ok <==> (webp_decoded(data@) matches Some(t) && t.0 >= 2 && t.1 >= 2),
        r is Ok ==> ({
            let t = webp_decoded(data@)->Some_0;
            r->Ok_0@ == jxl_encoding(t.0, t.1, t.2)
        }),
{
    let img = match decode_webp(data) {
        Ok(i) => i,
        Err(()) => return Err(()),
    };
    encode_jxl(&img)
}

/// Re-encode a WebP payload as AVIF. A success decoded the payload and is
/// an AVIF container recording the source dimensions; the compressed
/// payload inside it is whatever the encoder produced.
pub fn webp_to_avif(data: &Vec<u8>) -> (r: Result<Vec<u8>, ()>)
    ensures
        r is Ok ==> webp_decoded(data@) is Some,
        webp_decoded(data@) is None ==> r is Err,
        r is Ok ==> ({
            let t = webp_decoded(data@)->Some_0;
            is_avif_with_dimensions(r->Ok_0@, t.0, t.1)
        }),
{
    let img = match decode_webp(data) {
        Ok(i) => i,
        Err(()) => return Err(()),
    };
    encode_avif(&img)
}

} // verus!
