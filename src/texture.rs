use vstd::prelude::*;

use crate::command::Resource;
use crate::command_buffer::CommandBuffer;
use crate::image::{image_upload_ops, Image, Layout, Type};

verus! {

#[verifier::external_type_specification]
#[verifier::external_body]
pub struct ExIoError(std::io::Error);

#[verifier::external_type_specification]
#[verifier::external_body]
pub struct ExDecodingError(png::DecodingError);

/// Why a texture could not be made from an image file.
pub enum TextureError {
    /// Reading the image failed.
    IoError(std::io::Error),
    /// The image is not eight-bit RGBA, the one layout textures are made from.
    InvalidColorChannel,
    /// The image is not a valid PNG.
    Miscellaneous,
}

/// The first frame of the PNG image held in `bytes`: width, height, samples
/// per pixel, bits per sample and the pixel bytes; `None` where `bytes` is not
/// a PNG image that decodes.
pub uninterp spec fn png_first_frame(bytes: Seq<u8>) -> Option<(u32, u32, u8, u8, Seq<u8>)>;

/// Relies on png's `Decoder::read_info` and `Reader::next_frame`: the first
/// frame of the image, which depends on the bytes alone.
#[verifier::external_body]
fn decode_first_frame(bytes: &[u8]) -> (r: Result<(u32, u32, u8, u8, Vec<u8>), png::DecodingError>)
    ensures
        r is Ok <==> png_first_frame(bytes@) is Some,
        r is Ok ==> png_first_frame(bytes@) == Some(
            (r->Ok_0.0, r->Ok_0.1, r->Ok_0.2, r->Ok_0.3, r->Ok_0.4@),
        ),
{
    let mut reader = png::Decoder::new(bytes).read_info()?;
    let mut data = vec![0; reader.output_buffer_size()];
    let info = reader.next_frame(&mut data)?;
    data.truncate(info.buffer_size());
    Ok((info.width, info.height, info.color_type.samples() as u8, info.bit_depth as u8, data))
}

/// Relies on png's `DecodingError::IoError`: the I/O error that stopped
/// decoding, where it was one.
#[verifier::external_body]
fn io_error_of(e: png::DecodingError) -> Option<std::io::Error> {
    match e {
        png::DecodingError::IoError(x) => Some(x),
        _ => None,
    }
}

/// Pixels ready to upload into a texture: eight-bit RGBA, row after row.
pub struct DecodedImage {
    pub width: u32,
    pub height: u32,
    pub data: Vec<u8>,
}

/// Whether a decoded frame is eight-bit RGBA with one four-byte pixel for
/// each of its `width * height` pixels.
pub open spec fn is_rgba8(width: u32, height: u32, samples: u8, bit_depth: u8, len: nat) -> bool {
    samples == 4 && bit_depth == 8 && len == width * height * 4
}

/// Accepts a decoded frame as texture pixels where it is eight-bit RGBA.
pub fn check_rgba_frame(width: u32, height: u32, samples: u8, bit_depth: u8, data: Vec<u8>) -> (r: Result<
    DecodedImage,
    TextureError,
>)
    ensures
        r is Ok <==> is_rgba8(width, height, samples, bit_depth, data@.len()),
        r is Ok ==> r->Ok_0.width == width && r->Ok_0.height == height && r->Ok_0.data@ == data@,
        r is Err ==> r->Err_0 is InvalidColorChannel,
{
    if samples != 4 || bit_depth != 8 {
        return Err(TextureError::InvalidColorChannel);
    }
    assert(width as u128 * height as u128 <= 0xffff_ffff_ffff_ffff) by (nonlinear_arith)
        requires
            width <= 0xffff_ffff,
            height <= 0xffff_ffff,
    ;
    let pixels: u128 = width as u128 * height as u128;
    if pixels * 4 != data.len() as u128 {
        return Err(TextureError::InvalidColorChannel);
    }
    Ok(DecodedImage { width, height, data })
}

/// Decodes a PNG image into texture pixels.
pub fn decode_rgba(bytes: &[u8]) -> (r: Result<DecodedImage, TextureError>)
    ensures
        png_first_frame(bytes@) is None ==> r is Err && !(r->Err_0 is InvalidColorChannel),
        png_first_frame(bytes@) is Some ==> {
            let (w, h, s, d, data) = png_first_frame(bytes@)->Some_0;
            &&& r is Ok <==> is_rgba8(w, h, s, d, data.len())
            &&& r is Ok ==> r->Ok_0.width == w && r->Ok_0.height == h && r->Ok_0.data@ == data
            &&& r is Err ==> r->Err_0 is InvalidColorChannel
        },
{
    match decode_first_frame(bytes) {
        Ok((width, height, samples, bit_depth, data)) => check_rgba_frame(width, height, samples, bit_depth, data),
        Err(e) => match io_error_of(e) {
            Some(io) => Err(TextureError::IoError(io)),
            None => Err(TextureError::Miscellaneous),
        },
    }
}

/// A sampled image together with its view and sampler.
pub struct Texture {
    image: Image,
    sampler: u64,
    image_view: u64,
}

impl Texture {
    pub closed spec fn image(&self) -> Image {
        self.image
    }

    pub closed spec fn sampler(&self) -> u64 {
        self.sampler
    }

    pub closed spec fn image_view(&self) -> u64 {
        self.image_view
    }

    /// A texture filled with `data` through `staging`, over a freshly created
    /// image, view and sampler; `staging` is left to the cleanup list.
    pub fn new_raw_data(
        command_buffer: &mut CommandBuffer,
        image: Resource,
        staging: Resource,
        image_view: u64,
        sampler: u64,
        data: &[u8],
        width: u32,
        height: u32,
    ) -> (r: Texture)
        requires
            old(command_buffer).is_recording(),
        ensures
            r.image().resource() == image,
            r.image().kind() == Type::SAMPLED,
            r.image().layout_spec() == Layout::ShaderReadOnlyOptimal,
            !r.image().is_destroyed(),
            r.image_view() == image_view,
            r.sampler() == sampler,
            final(command_buffer).is_recording(),
            final(command_buffer).handle() == old(command_buffer).handle(),
            final(command_buffer).recorded() == old(command_buffer).recorded()
                + image_upload_ops(staging.handle, image.handle, data@, width, height),
            final(command_buffer).pending() == old(command_buffer).pending().push(staging),
    {
        let image = Image::new(command_buffer, image, staging, width, height, Type::SAMPLED, data);
        Texture { image, sampler, image_view }
    }

    pub fn get_sampler(&self) -> (r: u64)
        ensures
            r == self.sampler(),
    {
        self.sampler
    }

    pub fn get_image_view(&self) -> (r: u64)
        ensures
            r == self.image_view(),
    {
        self.image_view
    }

    pub fn get_image(&self) -> (r: u64)
        ensures
            r == self.image().resource().handle,
    {
        self.image.get_image()
    }

    /// Hands back the image and its allocation to free, the first time only.
    pub fn destroy(&mut self) -> (r: Option<Resource>)
        ensures
            final(self).image().is_destroyed(),
            final(self).image().resource() == old(self).image().resource(),
            old(self).image().is_destroyed() ==> r is None,
            !old(self).image().is_destroyed() ==> r == Some(old(self).image().resource()),
    {
        self.image.destroy()
    }
}

} // verus!
