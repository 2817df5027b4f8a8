//! Window icons: the bytes of the icon file, decoded and written out again as
//! PNG for the window to take.
use vstd::prelude::*;

verus! {

/// What decoding `bytes` as a PNG image and encoding the image again as PNG
/// gives, when both succeed.
pub uninterp spec fn png_reencoding(bytes: Seq<u8>) -> Option<Seq<u8>>;

/// Decodes `bytes` as PNG (`image::ImageReader::with_format` with
/// `ImageFormat::Png`, then `decode`) and encodes the image again as PNG
/// (`DynamicImage::write_to`); `None` when either step fails. Both steps
/// depend on the bytes alone, so the result is named by `png_reencoding`.
#[verifier::external_body]
fn reencode_as_png(bytes: &[u8]) -> (r: Option<Vec<u8>>)
    ensures
        match r {
            Some(png) => png_reencoding(bytes@) == Some(png@),
            None => png_reencoding(bytes@) is None,
        },
{
    let reader = image::ImageReader::with_format(std::io::Cursor::new(bytes), image::ImageFormat::Png);
    let img = reader.decode().ok()?;
    let mut out: Vec<u8> = Vec::new();
    img.write_to(&mut std::io::Cursor::new(&mut out), image::ImageFormat::Png).ok()?;
    Some(out)
}

/// The icon that the contents of a PNG icon file give: the image decoded and
/// encoded again as PNG, or `None` when the bytes are no readable PNG image.
pub fn icon_png(file_bytes: &[u8]) -> (r: Option<Vec<u8>>)
    ensures
        match r {
            Some(png) => png_reencoding(file_bytes@) == Some(png@),
            None => png_reencoding(file_bytes@) is None,
        },
{
    reencode_as_png(file_bytes)
}

} // verus!
