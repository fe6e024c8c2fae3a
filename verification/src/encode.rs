//! The lossless encoding of a captured image.
use vstd::prelude::*;

verus! {

/// What the `image` crate's PNG encoder makes of `width` by `height` pixels
/// of four bytes each: the bytes of the file, or the reason for which it
/// refuses them, as text.
pub uninterp spec fn png_encoding(width: u32, height: u32, rgba: Seq<u8>) -> Result<
    Seq<u8>,
    Seq<char>,
>;

/// Whether `out` is the outcome that `named` stands for.
pub open spec fn encoded_as(out: Result<Vec<u8>, String>, named: Result<Seq<u8>, Seq<char>>) -> bool {
    match out {
        Ok(bytes) => named == Ok::<Seq<u8>, Seq<char>>(bytes@),
        Err(reason) => named == Err::<Seq<u8>, Seq<char>>(reason@),
    }
}

/// Calls `image::write_buffer_with_format` with the PNG format and the
/// eight-bit RGBA colour type, writing into memory; an error comes back as
/// the text that it displays. The encoder panics on a buffer whose length
/// is not that of `width` by `height` pixels, so the precondition leaves
/// such a buffer out. The contract names the outcome and claims nothing
/// else of it: which bytes a PNG file holds is the encoder's business.
#[verifier::external_body]
pub(crate) fn encode_png(width: u32, height: u32, rgba: &Vec<u8>) -> (out: Result<Vec<u8>, String>)
    requires
        rgba@.len() == width * height * 4,
    ensures
        encoded_as(out, png_encoding(width, height, rgba@)),
{
    let mut file = std::io::Cursor::new(Vec::new());
    let color = image::ExtendedColorType::Rgba8;
    match image::write_buffer_with_format(&mut file, rgba, width, height, color, image::ImageFormat::Png) {
        Ok(()) => Ok(file.into_inner()),
        Err(e) => Err(e.to_string()),
    }
}

} // verus!
