//! Textures: an encoded image decoded to 8-bit RGB and uploaded as a 2D
//! texture bound to one of eight texture units.
use vstd::prelude::*;
use crate::device::{
    DeviceCall, GL_CLAMP_TO_EDGE, GL_LINEAR, GL_TEXTURE0, GL_TEXTURE_2D, GL_TEXTURE_MAG_FILTER,
    GL_TEXTURE_MIN_FILTER, GL_TEXTURE_WRAP_S, GL_TEXTURE_WRAP_T,
};
use crate::error::RenderError;

verus! {

/// Relies on `image::load_from_memory` (guesses the format from the bytes
/// and decodes them), then `DynamicImage::to_rgb8`, `width`, `height` and
/// `into_raw` to hand the pixels out as row-major 8-bit RGB. The buffer that
/// `to_rgb8` builds holds three bytes per pixel. Which pixels come out is
/// not stated: some decoders pick a code path by the CPU they run on.
#[verifier::external_body]
fn decode_rgb8(encoded: &Vec<u8>) -> (r: Option<(u32, u32, Vec<u8>)>)
    ensures
        r matches Some((w, h, px)) ==> px@.len() == 3 * w * h,
{
    match image::load_from_memory(encoded) {
        Ok(img) => {
            let rgb = img.to_rgb8();
            Some((rgb.width(), rgb.height(), rgb.into_raw()))
        },
        Err(_) => None,
    }
}

/// An image decoded to row-major 8-bit RGB, for a texture unit.
#[derive(Clone, Debug, PartialEq, Eq)]
pub struct DecodedImage {
    pub unit: i32,
    pub width: u32,
    pub height: u32,
    pub pixels: Vec<u8>,
}

/// A texture object and the unit it is bound to.
#[derive(Clone, Copy, Debug, PartialEq, Eq, Structural)]
pub struct Texture {
    pub identifier: u32,
    pub unit: i32,
    pub sampler: u32,
}

/// The driver's name of texture unit `i`.
pub open spec fn unit_enum(i: int) -> int {
    GL_TEXTURE0 + i
}

/// The driver's name of a texture unit in 0 to 7.
pub fn SamplerUnit(samplerIdx: i32) -> (r: Result<u32, RenderError>)
    ensures
        0 <= samplerIdx <= 7 ==> r == Ok::<u32, RenderError>(unit_enum(samplerIdx as int) as u32),
        !(0 <= samplerIdx <= 7) ==> r == Err::<u32, RenderError>(RenderError::InvalidSamplerIndex),
{
    if samplerIdx < 0 || samplerIdx > 7 {
        return Err(RenderError::InvalidSamplerIndex);
    }
    Ok(GL_TEXTURE0 + samplerIdx as u32)
}

/// The calls that set up a texture before its pixels are uploaded: make
/// the unit active, bind the texture, linear filtering, clamp to edge.
pub open spec fn texture_setup_calls(unit: u32, identifier: u32) -> Seq<DeviceCall> {
    seq![
        DeviceCall::ActiveTexture { unit },
        DeviceCall::BindTexture { target: GL_TEXTURE_2D, texture: identifier },
        DeviceCall::TexParameteri {
            target: GL_TEXTURE_2D,
            pname: GL_TEXTURE_MIN_FILTER,
            param: GL_LINEAR,
        },
        DeviceCall::TexParameteri {
            target: GL_TEXTURE_2D,
            pname: GL_TEXTURE_MAG_FILTER,
            param: GL_LINEAR,
        },
        DeviceCall::TexParameteri {
            target: GL_TEXTURE_2D,
            pname: GL_TEXTURE_WRAP_S,
            param: GL_CLAMP_TO_EDGE,
        },
        DeviceCall::TexParameteri {
            target: GL_TEXTURE_2D,
            pname: GL_TEXTURE_WRAP_T,
            param: GL_CLAMP_TO_EDGE,
        },
    ]
}

/// The calls of an upload: the setup calls, then the pixels.
pub open spec fn texture_upload_calls(
    calls: Seq<DeviceCall>,
    unit: u32,
    identifier: u32,
    width: u32,
    height: u32,
    pixels: Seq<u8>,
) -> bool {
    &&& calls.len() == 7
    &&& calls.take(6) == texture_setup_calls(unit, identifier)
    &&& calls[6] matches DeviceCall::TexImage2D { width: w, height: h, pixels: p }
    &&& w == width && h == height && p@ == pixels
}

/// Uploads decoded RGB pixels into texture object `identifier` (freshly
/// generated by the driver) on texture unit `samplerIdx`.
pub fn UploadTexture(
    samplerIdx: i32,
    identifier: u32,
    width: u32,
    height: u32,
    pixels: Vec<u8>,
    calls: &mut Vec<DeviceCall>,
) -> (r: Result<Texture, RenderError>)
    ensures
        !(0 <= samplerIdx <= 7) ==> r == Err::<Texture, RenderError>(
            RenderError::InvalidSamplerIndex,
        ) && final(calls)@ == old(calls)@,
        0 <= samplerIdx <= 7 ==> r == Ok::<Texture, RenderError>(
            Texture {
                identifier,
                unit: samplerIdx,
                sampler: unit_enum(samplerIdx as int) as u32,
            },
        ) && final(calls)@.take(old(calls)@.len() as int) == old(calls)@ && texture_upload_calls(
            final(calls)@.skip(old(calls)@.len() as int),
            unit_enum(samplerIdx as int) as u32,
            identifier,
            width,
            height,
            pixels@,
        ),
{
    let samplerEnum = match SamplerUnit(samplerIdx) {
        Ok(e) => e,
        Err(e) => return Err(e),
    };
    calls.push(DeviceCall::ActiveTexture { unit: samplerEnum });
    calls.push(DeviceCall::BindTexture { target: GL_TEXTURE_2D, texture: identifier });
    calls.push(
        DeviceCall::TexParameteri {
            target: GL_TEXTURE_2D,
            pname: GL_TEXTURE_MIN_FILTER,
            param: GL_LINEAR,
        },
    );
    calls.push(
        DeviceCall::TexParameteri {
            target: GL_TEXTURE_2D,
            pname: GL_TEXTURE_MAG_FILTER,
            param: GL_LINEAR,
        },
    );
    calls.push(
        DeviceCall::TexParameteri {
            target: GL_TEXTURE_2D,
            pname: GL_TEXTURE_WRAP_S,
            param: GL_CLAMP_TO_EDGE,
        },
    );
    calls.push(
        DeviceCall::TexParameteri {
            target: GL_TEXTURE_2D,
            pname: GL_TEXTURE_WRAP_T,
            param: GL_CLAMP_TO_EDGE,
        },
    );
    calls.push(DeviceCall::TexImage2D { width, height, pixels });
    let ghost added = final(calls)@.skip(old(calls)@.len() as int);
    assert(final(calls)@.take(old(calls)@.len() as int) =~= old(calls)@);
    assert(added.take(6) =~= texture_setup_calls(samplerEnum, identifier));
    Ok(Texture { identifier, unit: samplerIdx, sampler: samplerEnum })
}

/// Decodes an encoded image for texture unit `samplerIdx`. The unit is
/// checked before anything is decoded; the texture object is made and
/// filled afterwards, by `UploadTexture`, only for a decoded image.
pub fn LoadTexture(samplerIdx: i32, encoded: &Vec<u8>) -> (r: Result<DecodedImage, RenderError>)
    ensures
        !(0 <= samplerIdx <= 7) ==> r == Err::<DecodedImage, RenderError>(
            RenderError::InvalidSamplerIndex,
        ),
        0 <= samplerIdx <= 7 ==> r == Err::<DecodedImage, RenderError>(RenderError::DecodeError)
            || (r matches Ok(img) && img.unit == samplerIdx && img.pixels@.len() == 3 * img.width
            * img.height),
{
    if samplerIdx < 0 || samplerIdx > 7 {
        return Err(RenderError::InvalidSamplerIndex);
    }
    match decode_rgb8(encoded) {
        None => Err(RenderError::DecodeError),
        Some((width, height, pixels)) => Ok(DecodedImage { unit: samplerIdx, width, height, pixels }),
    }
}

} // verus!
