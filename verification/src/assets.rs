//! Decoded model assets: textures as 8-bit RGBA pixels.
use vstd::prelude::*;

verus! {

/// A texture decoded to 8-bit RGBA pixels, row by row.
#[derive(Debug, Clone, PartialEq, Eq)]
pub struct DecodedTexture {
    width: u32,
    height: u32,
    rgba: Vec<u8>,
}

impl View for DecodedTexture {
    type V = (u32, u32, Seq<u8>);

    /// A texture as its width, height and pixel data.
    closed spec fn view(&self) -> (u32, u32, Seq<u8>) {
        (self.width, self.height, self.rgba@)
    }
}

/// Textures agree exactly when their widths, heights and pixel data agree:
/// a texture is nothing but its parts. Since [`DecodedTexture::new`] takes any
/// parts without checking them and keeps them as given, textures built from
/// equal parts agree and textures built from different parts differ.
pub proof fn lemma_texture_is_its_parts(a: DecodedTexture, b: DecodedTexture)
    ensures
        a@ == b@ <==> (a.width_view() == b.width_view() && a.height_view() == b.height_view()
            && a.rgba_view() == b.rgba_view()),
        a@ == (a.width_view(), a.height_view(), a.rgba_view()),
{
}

impl DecodedTexture {
    /// The texture of the given parts, whatever they are: nothing is checked.
    pub fn new(width: u32, height: u32, rgba: Vec<u8>) -> (r: Self)
        ensures
            r.width_view() == width,
            r.height_view() == height,
            r.rgba_view() == rgba@,
            r@ == (width, height, rgba@),
    {
        DecodedTexture { width, height, rgba }
    }

    pub closed spec fn width_view(&self) -> u32 {
        self.width
    }

    pub closed spec fn height_view(&self) -> u32 {
        self.height
    }

    pub closed spec fn rgba_view(&self) -> Seq<u8> {
        self.rgba@
    }

    pub fn width(&self) -> (r: u32)
        ensures
            r == self.width_view(),
    {
        self.width
    }

    pub fn height(&self) -> (r: u32)
        ensures
            r == self.height_view(),
    {
        self.height
    }

    pub fn rgba(&self) -> (r: &[u8])
        ensures
            r@ == self.rgba_view(),
    {
        self.rgba.as_slice()
    }
}

/// The error type of the `image` crate.
#[verifier::external_type_specification]
#[verifier::external_body]
pub struct ExImageError(image::ImageError);

/// The image format type of the `image` crate.
#[verifier::external_type_specification]
#[verifier::external_body]
pub struct ExImageFormat(image::ImageFormat);

/// The ASCII lower-case form of a text.
pub open spec fn spec_ascii_lowercase(text: Seq<char>) -> Seq<char> {
    text.map_values(|c: char| if 'A' <= c <= 'Z' { ((c as u32) + 32) as char } else { c })
}

/// The file extensions the `image` crate knows a format for, in lower case.
pub open spec fn spec_known_extension(extension: Seq<char>) -> bool {
    ||| extension == "avif"@
    ||| extension == "jpg"@
    ||| extension == "jpeg"@
    ||| extension == "jfif"@
    ||| extension == "png"@
    ||| extension == "apng"@
    ||| extension == "gif"@
    ||| extension == "webp"@
    ||| extension == "tif"@
    ||| extension == "tiff"@
    ||| extension == "tga"@
    ||| extension == "dds"@
    ||| extension == "bmp"@
    ||| extension == "ico"@
    ||| extension == "hdr"@
    ||| extension == "exr"@
    ||| extension == "pbm"@
    ||| extension == "pam"@
    ||| extension == "ppm"@
    ||| extension == "pgm"@
    ||| extension == "pnm"@
    ||| extension == "ff"@
    ||| extension == "qoi"@
}

/// The image format the `image` crate associates with a file extension in
/// lower case.
pub uninterp spec fn spec_format_of_extension(extension: Seq<char>) -> Option<image::ImageFormat>;

/// The width, height and 8-bit RGBA pixel rows the `image` crate decodes
/// `bytes` into when it reads them as `format`, or `None` when it cannot.
pub uninterp spec fn spec_decoded_rgba8(format: image::ImageFormat, bytes: Seq<u8>) -> Option<
    (u32, u32, Seq<u8>),
>;

/// What decoding `bytes` as the format of a lower-case file extension gives:
/// nothing for an extension that names no format.
pub open spec fn spec_decoded_texture(extension: Seq<char>, bytes: Seq<u8>) -> Option<
    (u32, u32, Seq<u8>),
> {
    match spec_format_of_extension(extension) {
        Some(format) => spec_decoded_rgba8(format, bytes),
        None => None,
    }
}

/// `image::ImageFormat::from_extension`: a fixed table of the crate, looked
/// up with the extension in ASCII lower case. The contract claims that the
/// result is a function of the lower-case extension alone (named by
/// [`spec_format_of_extension`]) and that there is a format exactly for the
/// extensions of that table; which format each one names is left unsaid.
#[verifier::external_body]
fn format_of_extension(extension: &str) -> (r: Option<image::ImageFormat>)
    ensures
        r == spec_format_of_extension(spec_ascii_lowercase(extension@)),
        r is Some <==> spec_known_extension(spec_ascii_lowercase(extension@)),
{
    image::ImageFormat::from_extension(extension)
}

/// The error `image::open` reports for a file whose extension names no
/// format: an unsupported format, hinted by the extension. Nothing is
/// claimed of the value.
#[verifier::external_body]
fn unknown_extension_error(extension: &str) -> (r: image::ImageError) {
    image::ImageError::Unsupported(
        image::error::ImageFormatHint::PathExtension(std::path::PathBuf::from(extension)).into(),
    )
}

/// `image::load_from_memory_with_format`, then `DynamicImage::to_rgba8`: the
/// bytes are decoded as the given format (no decoding hook is consulted for
/// a format given this way) and converted to 8-bit RGBA. The contract
/// claims that the outcome is a function of the format and the bytes, named
/// by [`spec_decoded_rgba8`]: an error exactly when it is `None`, else its
/// width, height and pixel data; and that the pixel data has room for four
/// bytes per pixel (a buffer made by the conversion has exactly that, one
/// handed over by a decoder at least that).
#[verifier::external_body]
fn load_rgba8(bytes: &[u8], format: image::ImageFormat) -> (r: Result<
    (u32, u32, Vec<u8>),
    image::ImageError,
>)
    ensures
        match r {
            Ok((width, height, rgba)) => {
                &&& spec_decoded_rgba8(format, bytes@) == Some((width, height, rgba@))
                &&& rgba@.len() >= 4 * width * height
            },
            Err(_) => spec_decoded_rgba8(format, bytes@) is None,
        },
{
    match image::load_from_memory_with_format(bytes, format) {
        Ok(image) => {
            let rgba = image.to_rgba8();
            Ok((rgba.width(), rgba.height(), rgba.into_raw()))
        },
        Err(error) => Err(error),
    }
}

/// Decodes the bytes of an image file into a texture of 8-bit RGBA pixels,
/// taking the image format from the file's extension: an error when the
/// extension names no format the `image` crate knows, or when the bytes do
/// not decode as that format.
pub fn decode_texture(extension: &str, bytes: &[u8]) -> (r: Result<DecodedTexture, image::ImageError>)
    ensures
        !spec_known_extension(spec_ascii_lowercase(extension@)) ==> r is Err,
        spec_decoded_texture(spec_ascii_lowercase(extension@), bytes@) is Some <==> r is Ok,
        r matches Ok(t) ==> spec_decoded_texture(spec_ascii_lowercase(extension@), bytes@) == Some(
            (t.width_view(), t.height_view(), t.rgba_view()),
        ),
        r matches Ok(t) ==> t.rgba_view().len() >= 4 * t.width_view() * t.height_view(),
{
    let format = match format_of_extension(extension) {
        Some(format) => format,
        None => {
            return Err(unknown_extension_error(extension));
        },
    };
    match load_rgba8(bytes, format) {
        Ok((width, height, rgba)) => Ok(DecodedTexture::new(width, height, rgba)),
        Err(error) => Err(error),
    }
}

} // verus!
