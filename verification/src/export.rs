//! Export of a clipboard image: the image is decoded from whatever format it
//! was stored in, re-encoded as PNG, and named after its clipboard entry.

use crate::decimal::{decimal_int, push_decimal_i32};
use image::{DynamicImage, ImageError, ImageFormat};
use std::io::Cursor;
use vstd::prelude::*;
use vstd::string::StringExecFns;

verus! {

/// `image::DynamicImage`, a decoded image.
#[verifier::external_type_specification]
#[verifier::external_body]
pub struct ExDynamicImage(DynamicImage);

/// `image::ImageError`, the error of decoding or encoding an image.
#[verifier::external_type_specification]
#[verifier::external_body]
pub struct ExImageError(ImageError);

/// Whether `image::load_from_memory` decodes `data` (in a format that it
/// recognises from the bytes themselves).
pub uninterp spec fn decodes_as_image(data: Seq<u8>) -> bool;

/// Whether `DynamicImage::write_to` with `ImageFormat::Png` encodes the
/// image that `data` decodes to (the PNG encoder accepts its colour type).
pub uninterp spec fn png_encodes(data: Seq<u8>) -> bool;

/// The PNG file that `DynamicImage::write_to` with `ImageFormat::Png` writes
/// for the image that `data` decodes to.
pub uninterp spec fn png_encoding(data: Seq<u8>) -> Seq<u8>;

/// A decoded image together with the bytes it was decoded from. Only
/// `DecodedImage::load_from_memory` builds one, so the two always agree.
pub(crate) struct DecodedImage {
    source: Vec<u8>,
    image: DynamicImage,
}

impl DecodedImage {
    /// The bytes this image was decoded from.
    pub(crate) closed spec fn source(&self) -> Seq<u8> {
        self.source@
    }

    /// Calls `image::load_from_memory`. The contract claims that it succeeds
    /// exactly on the inputs it decodes, and keeps those bytes beside the image.
    #[verifier::external_body]
    pub(crate) fn load_from_memory(data: &[u8]) -> (res: Result<DecodedImage, ImageError>)
        ensures
            res is Ok <==> decodes_as_image(data@),
            res matches Ok(img) ==> img.source() == data@,
    {
        let image = image::load_from_memory(data)?;
        Ok(DecodedImage { source: data.to_vec(), image })
    }

    /// Calls `DynamicImage::write_to` with `ImageFormat::Png` into an
    /// in-memory buffer. The contract claims that it succeeds exactly when the
    /// PNG encoder accepts the image (which depends on the image alone, as the
    /// buffer in memory cannot fail), and that what it writes is the PNG
    /// encoding of the image.
    #[verifier::external_body]
    pub(crate) fn write_png(&self) -> (res: Result<Vec<u8>, ImageError>)
        ensures
            res is Ok <==> png_encodes(self.source()),
            res matches Ok(png) ==> png@ == png_encoding(self.source()),
    {
        let mut out = Cursor::new(Vec::new());
        self.image.write_to(&mut out, ImageFormat::Png)?;
        Ok(out.into_inner())
    }
}

/// The image of a clipboard entry as it is stored: the encoded image and the
/// file extension it was captured with, if any.
#[derive(Debug, Clone, PartialEq, Eq)]
pub struct ClipboardImage {
    pub data: Vec<u8>,
    pub extension: Option<String>,
}

/// Why a clipboard image could not be exported.
#[derive(Debug)]
pub enum ImageExportError {
    /// The clipboard entry holds no image.
    NoImageData,
    /// The stored image could not be decoded.
    Decode(ImageError),
    /// The decoded image could not be encoded as PNG.
    Encode(ImageError),
}

/// A clipboard image ready to be written: the file name and the PNG bytes.
#[derive(Debug, Clone, PartialEq, Eq)]
pub struct ImageExport {
    pub file_name: String,
    pub png: Vec<u8>,
}

/// The extension an exported image is named with: the stored one, else `png`.
pub open spec fn export_extension(extension: Option<Seq<char>>) -> Seq<char> {
    match extension {
        Some(e) => e,
        None => "png"@,
    }
}

/// The file name of the exported image of clipboard entry `id`.
pub open spec fn export_file_name(id: int, extension: Option<Seq<char>>) -> Seq<char> {
    "clipboard-"@ + decimal_int(id) + "."@ + export_extension(extension)
}

/// The view of an optional string.
pub open spec fn optional_text(s: Option<String>) -> Option<Seq<char>> {
    match s {
        Some(t) => Some(t@),
        None => None,
    }
}

/// Names the exported image of clipboard entry `id`:
/// `clipboard-{id}.{extension}`, with `png` when no extension is stored.
pub fn export_file_name_of(id: i32, extension: &Option<String>) -> (name: String)
    ensures
        name@ == export_file_name(id as int, optional_text(*extension)),
{
    let mut name = String::from_str("clipboard-");
    push_decimal_i32(&mut name, id);
    name.append(".");
    match extension {
        Some(e) => name.append(e.as_str()),
        None => name.append("png"),
    }
    name
}

/// Prepares the image of clipboard entry `id` for saving: fails when the
/// entry holds no image or the image cannot be decoded or re-encoded as PNG,
/// and otherwise succeeds with the file name and the image re-encoded as PNG.
pub fn export_clipboard_image(id: i32, image: Option<&ClipboardImage>) -> (r: Result<
    ImageExport,
    ImageExportError,
>)
    ensures
        r matches Err(ImageExportError::NoImageData) <==> image is None,
        r matches Err(ImageExportError::Decode(_)) <==> (image matches Some(img)
            && !decodes_as_image(img.data@)),
        r matches Err(ImageExportError::Encode(_)) <==> (image matches Some(img)
            && decodes_as_image(img.data@) && !png_encodes(img.data@)),
        r matches Ok(e) ==> image matches Some(img) && decodes_as_image(img.data@)
            && e.file_name@ == export_file_name(id as int, optional_text(img.extension))
            && e.png@ == png_encoding(img.data@),
{
    let file_name = match image {
        Some(img) => export_file_name_of(id, &img.extension),
        None => export_file_name_of(id, &None),
    };
    let img = match image {
        Some(img) => img,
        None => return Err(ImageExportError::NoImageData),
    };
    let decoded = match DecodedImage::load_from_memory(img.data.as_slice()) {
        Ok(d) => d,
        Err(e) => return Err(ImageExportError::Decode(e)),
    };
    match decoded.write_png() {
        Ok(png) => Ok(ImageExport { file_name, png }),
        Err(e) => Err(ImageExportError::Encode(e)),
    }
}

} // verus!
