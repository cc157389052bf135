//! Encoding pixels for a document: as a PNG image, by the `png` crate, and
//! the image as text, by the `base64` crate.

use vstd::prelude::*;
use base64::Engine;
use vstd::string::StringExecFns;
use crate::error::LignumError;

verus! {

#[verifier::external_type_specification]
#[verifier::external_body]
pub struct ExEncodingError(png::EncodingError);

/// The PNG image that the `png` crate makes of `width` by `height` pixels of
/// four bytes each (red, green, blue, alpha), at eight bits a channel and
/// with the crate's own choice of compression and filters; `None` where the
/// crate reports an error.
pub uninterp spec fn png_rgba(width: u32, height: u32, data: Seq<u8>) -> Option<Seq<u8>>;

/// The text that the `base64` crate's standard engine makes of `bytes`: the
/// standard alphabet, with padding.
pub uninterp spec fn base64_standard(bytes: Seq<u8>) -> Seq<char>;

/// Whether the `png` crate can count the bytes of an image of `width` by
/// `height` in a `usize`: four bytes a pixel and one byte more a row.
pub open spec fn png_fits(width: u32, height: u32) -> bool {
    width * height * 4 + width * 4 + 1 <= usize::MAX
}

/// Whether the `base64` crate can count the characters for `len` bytes in a `usize`.
pub open spec fn base64_fits(len: nat) -> bool {
    (len / 3) * 4 + 4 <= usize::MAX
}

/// Whether pixels make an image of `width` by `height`: neither is zero,
/// and the pixels take four bytes each.
pub open spec fn spec_is_well_formed(width: u32, height: u32, data: Seq<u8>) -> bool {
    width > 0 && height > 0 && data.len() == width * height * 4
}

/// `png::Encoder::new` on an empty buffer, `set_color` with `Rgba`,
/// `write_header`, `write_image_data` and `finish`. The result is the
/// buffer, or the first error that one of them reports. With a buffer for
/// its sink and nothing set but the colour type, the crate refuses an image
/// without width or height and pixels that are not as many as the width and
/// the height ask for, and nothing else: every other error of its is one of
/// the sink or of a setting that is not made. The buffer, as every `Vec`,
/// holds no more than `isize::MAX` bytes. The size must be one that the
/// crate can count, since it multiplies without a check.
#[verifier::external_body]
pub(crate) fn png_encode_rgba(width: u32, height: u32, data: &[u8]) -> (r: Result<
    Vec<u8>,
    png::EncodingError,
>)
    requires
        png_fits(width, height),
    ensures
        match r {
            Ok(bytes) => png_rgba(width, height, data@) == Some(bytes@),
            Err(_) => png_rgba(width, height, data@) is None,
        },
        r is Ok <==> spec_is_well_formed(width, height, data@),
        r matches Ok(bytes) ==> bytes@.len() <= isize::MAX,
{
    let mut out = Vec::new();
    let mut encoder = png::Encoder::new(&mut out, width, height);
    encoder.set_color(png::ColorType::Rgba);
    let mut writer = encoder.write_header()?;
    writer.write_image_data(data)?;
    writer.finish()?;
    Ok(out)
}

/// What the error says of itself, by its `Display`.
#[verifier::external_body]
pub(crate) fn png_error_text(error: &png::EncodingError) -> (text: String) {
    error.to_string()
}

/// `Engine::encode` of `base64::engine::general_purpose::STANDARD`. The
/// bytes must be few enough for the length of the text to fit a `usize`:
/// the crate panics where it does not.
#[verifier::external_body]
pub(crate) fn base64_encode(bytes: &[u8]) -> (text: String)
    requires
        base64_fits(bytes@.len()),
    ensures
        text@ == base64_standard(bytes@),
{
    base64::engine::general_purpose::STANDARD.encode(bytes)
}

/// The data URI of a PNG image whose base64 text is `encoded`.
pub open spec fn spec_data_uri(encoded: Seq<char>) -> Seq<char> {
    "data:image/png;base64,"@ + encoded
}

/// The data URI of a PNG image whose base64 text is `encoded`.
pub fn data_uri(encoded: &str) -> (uri: String)
    ensures
        uri@ == spec_data_uri(encoded@),
{
    let mut uri = String::from_str("data:image/png;base64,");
    uri.append(encoded);
    uri
}

/// Whether an image of `width` by `height` with the pixels `data` can be
/// encoded: the pixels are at hand, the PNG encoder can count them, and they
/// make an image of that size.
pub open spec fn spec_can_encode(width: u32, height: u32, data: Option<Seq<u8>>) -> bool {
    data matches Some(pixels) && png_fits(width, height) && spec_is_well_formed(
        width,
        height,
        pixels,
    )
}

/// The data URI of the image of `width` by `height` with the pixels `data`,
/// where there is one: the pixels as a PNG image, and that as base64 text
/// behind `data:image/png;base64,`.
pub open spec fn spec_image_uri(width: u32, height: u32, data: Option<Seq<u8>>) -> Option<
    Seq<char>,
> {
    match data {
        None => None,
        Some(pixels) => if !png_fits(width, height) {
            None
        } else {
            match png_rgba(width, height, pixels) {
                None => None,
                Some(png) => Some(spec_data_uri(base64_standard(png))),
            }
        },
    }
}

/// Whether the `png` crate can count the bytes of an image of `width` by `height`.
pub fn png_can_count(width: u32, height: u32) -> (r: bool)
    ensures
        r == png_fits(width, height),
{
    assert(width * height <= 0xffff_ffff * 0xffff_ffff) by (nonlinear_arith)
        requires
            width <= 0xffff_ffff,
            height <= 0xffff_ffff,
    ;
    let bytes: u128 = (width as u128) * (height as u128) * 4 + (width as u128) * 4 + 1;
    bytes <= usize::MAX as u128
}

/// The image as a data URI: its pixels as a PNG image, and that as base64
/// text behind `data:image/png;base64,`.
///
/// An image whose pixels are not at hand is not supported. An image that is
/// too large to count, one without width or height, and one whose pixels are
/// not as many as its size asks for is an error. Every other image has a
/// data URI.
pub fn encode_image_as_data_uri(width: u32, height: u32, data: Option<&[u8]>) -> (r: Result<
    String,
    LignumError,
>)
    ensures
        r is Ok <==> spec_can_encode(width, height, pixels_view(data)),
        match r {
            Ok(uri) => spec_image_uri(width, height, pixels_view(data)) == Some(uri@),
            Err(error) => spec_image_uri(width, height, pixels_view(data)) is None && error is Other
                && (data is None
                ==> error.is_other("SVG backend does not yet implement image source lacks RGBA"@))
                && (data is Some && !png_fits(width, height) ==> error.is_other(
                "image dimensions overflow"@,
            )),
        },
{
    let data = match data {
        Some(data) => data,
        None => {
            return Err(
                LignumError::Other(
                    String::from_str("SVG backend does not yet implement image source lacks RGBA"),
                ),
            );
        },
    };
    if !png_can_count(width, height) {
        return Err(LignumError::Other(String::from_str("image dimensions overflow")));
    }
    let png = match png_encode_rgba(width, height, data) {
        Ok(png) => png,
        Err(error) => {
            return Err(LignumError::Other(png_error_text(&error)));
        },
    };
    let encoded = base64_encode(png.as_slice());
    Ok(data_uri(encoded.as_str()))
}

/// The pixels of a source as a value of specifications.
pub open spec fn pixels_view(data: Option<&[u8]>) -> Option<Seq<u8>> {
    match data {
        Some(bytes) => Some(bytes@),
        None => None,
    }
}

} // verus!
