//! The files of an object and the textures that are read from them.
use vstd::prelude::*;

verus! {

/// A file in an object's directory.
#[derive(Clone, Copy, Debug, PartialEq, Eq)]
pub enum Asset {
    Model,
    Normal,
    Albedo,
    Metalness,
    Roughness,
}

impl Asset {
    /// The name of the file.
    pub fn file_name(&self) -> (name: &'static str)
        ensures
            name@ == match *self {
                Asset::Model => "model.obj"@,
                Asset::Normal => "normal.png"@,
                Asset::Albedo => "albedo.png"@,
                Asset::Metalness => "metalness.png"@,
                Asset::Roughness => "roughness.png"@,
            },
    {
        match self {
            Asset::Model => "model.obj",
            Asset::Normal => "normal.png",
            Asset::Albedo => "albedo.png",
            Asset::Metalness => "metalness.png",
            Asset::Roughness => "roughness.png",
        }
    }
}

/// A decoded picture: four bytes for each pixel, red, green, blue and alpha,
/// row by row from the top.
#[derive(Debug, PartialEq, Eq)]
pub struct Picture {
    pub width: u32,
    pub height: u32,
    pub pixels: Vec<u8>,
}

/// What is handed to the device as a texture: its two sides, and the texels as
/// they stand in a picture.
#[derive(Debug, PartialEq, Eq)]
pub struct Texture {
    pub width: u16,
    pub height: u16,
    pub texels: Vec<u8>,
}

/// `image::ImageError`, of which nothing is believed: it says why `image::load`
/// failed, and is only passed on.
#[verifier::external_type_specification]
#[verifier::external_body]
pub struct ExImageError(image::ImageError);

/// Why no texture could be read.
#[derive(Debug)]
pub enum TextureError {
    /// The file is not a PNG picture that can be decoded.
    Undecodable(image::ImageError),
}

/// What `image::load` makes of the bytes of a PNG file, as 8-bit RGBA: the
/// width, the height and the pixels, or `None` where it fails.
pub uninterp spec fn decoded_png(bytes: Seq<u8>) -> Option<(u32, u32, Seq<u8>)>;

/// Calls `image::load` on the bytes of a PNG file, and `to_rgba8` on the picture
/// that it returns.
///
/// Believed of them: whether a picture comes back, its size and its pixels
/// depend on the bytes alone, and a picture that comes back has four bytes for
/// each of its pixels. Left unsaid is which files have a picture and what its
/// pixels are: that is for the PNG format to say, and `decoded_png` names it.
#[verifier::external_body]
fn decode_png(bytes: &[u8]) -> (picture: Result<Picture, image::ImageError>)
    ensures
        match picture {
            Ok(picture) => {
                &&& decoded_png(bytes@) == Some(
                    (picture.width, picture.height, picture.pixels@),
                )
                &&& picture.pixels@.len() == 4 * picture.width * picture.height
            },
            Err(_) => decoded_png(bytes@) is None,
        },
{
    let loaded = image::load(std::io::Cursor::new(bytes), image::ImageFormat::Png)?;
    let rgba = loaded.to_rgba8();
    let (width, height) = rgba.dimensions();
    Ok(Picture { width, height, pixels: rgba.into_raw() })
}

/// The texture is that of a picture with this size and these pixels: each side
/// modulo 2^16, which is what the device counts texels with.
pub open spec fn is_texture_of(texture: Texture, width: u32, height: u32, pixels: Seq<u8>) -> bool {
    &&& texture.width == width % 0x10000
    &&& texture.height == height % 0x10000
    &&& texture.texels@ == pixels
}

/// The texture that a picture is uploaded as.
pub fn texture_of(picture: Picture) -> (texture: Texture)
    ensures
        is_texture_of(texture, picture.width, picture.height, picture.pixels@),
        texture.texels@ == picture.pixels@,
{
    let width: u32 = picture.width;
    let height: u32 = picture.height;
    assert(width as u16 == width % 0x10000) by (bit_vector);
    assert(height as u16 == height % 0x10000) by (bit_vector);
    Texture {
        width: #[verifier::truncate] (width as u16),
        height: #[verifier::truncate] (height as u16),
        texels: picture.pixels,
    }
}

/// Reads a texture from the bytes of a PNG file.
pub fn load_image(bytes: &[u8]) -> (texture: Result<Texture, TextureError>)
    ensures
        match decoded_png(bytes@) {
            Some((width, height, pixels)) => {
                &&& texture is Ok
                &&& is_texture_of(texture->Ok_0, width, height, pixels)
                &&& texture->Ok_0.texels@ == pixels
                &&& pixels.len() == 4 * width * height
            },
            None => texture is Err,
        },
{
    match decode_png(bytes) {
        Ok(picture) => Ok(texture_of(picture)),
        Err(error) => Err(TextureError::Undecodable(error)),
    }
}

/// A picture whose sides are below 2^16 becomes a texture of its own size, with
/// four bytes for each texel.
pub proof fn small_picture_keeps_its_size(
    texture: Texture,
    width: u32,
    height: u32,
    pixels: Seq<u8>,
)
    requires
        is_texture_of(texture, width, height, pixels),
        pixels.len() == 4 * width * height,
        width < 0x10000,
        height < 0x10000,
    ensures
        texture.width == width,
        texture.height == height,
        texture.texels@.len() == 4 * texture.width * texture.height,
{
}

} // verus!
