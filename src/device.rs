//! The graphics device as the library sees it: the calls it issues, and a
//! model of the binding state that those calls change.
use vstd::prelude::*;

verus! {

pub const GL_POINTS: u32 = 0x0000;
pub const GL_LINES: u32 = 0x0001;
pub const GL_LINE_LOOP: u32 = 0x0002;
pub const GL_LINE_STRIP: u32 = 0x0003;
pub const GL_TRIANGLES: u32 = 0x0004;
pub const GL_TRIANGLE_STRIP: u32 = 0x0005;
pub const GL_TRIANGLE_FAN: u32 = 0x0006;

pub const GL_ARRAY_BUFFER: u32 = 0x8892;
pub const GL_ELEMENT_ARRAY_BUFFER: u32 = 0x8893;
pub const GL_STREAM_DRAW: u32 = 0x88E0;
pub const GL_STATIC_DRAW: u32 = 0x88E4;
pub const GL_DYNAMIC_DRAW: u32 = 0x88E8;

pub const GL_TEXTURE0: u32 = 0x84C0;
pub const GL_TEXTURE_2D: u32 = 0x0DE1;
pub const GL_TEXTURE_MAG_FILTER: u32 = 0x2800;
pub const GL_TEXTURE_MIN_FILTER: u32 = 0x2801;
pub const GL_TEXTURE_WRAP_S: u32 = 0x2802;
pub const GL_TEXTURE_WRAP_T: u32 = 0x2803;
pub const GL_LINEAR: u32 = 0x2601;
pub const GL_CLAMP_TO_EDGE: u32 = 0x812F;

pub const GL_FRAGMENT_SHADER: u32 = 0x8B30;
pub const GL_VERTEX_SHADER: u32 = 0x8B31;

pub const GL_COLOR_BUFFER_BIT: u32 = 0x4000;

/// One call into the graphics driver.
///
/// Float values (uniform payloads, the clear color) travel as the bit
/// patterns of single-precision floats; the code that talks to the driver
/// turns them back into floats.
#[derive(Clone, Debug, PartialEq)]
#[allow(inconsistent_fields)]
pub enum DeviceCall {
    /// Enable the vertex attribute array at a location.
    EnableVertexAttribArray { location: u32 },
    /// Disable the vertex attribute array at a location.
    DisableVertexAttribArray { location: u32 },
    /// Bind a buffer to a target; buffer 0 unbinds.
    BindBuffer { target: u32, buffer: u32 },
    /// Upload bytes into the buffer bound to a target.
    BufferData { target: u32, bytes: Vec<u8>, usage: u32 },
    /// Describe the layout at a location: float components, tightly packed,
    /// not normalized, starting at offset zero of the bound array buffer.
    VertexAttribPointer { location: u32, components: u32 },
    Uniform1i { location: i32, x: i32 },
    Uniform2i { location: i32, x: i32, y: i32 },
    Uniform3i { location: i32, x: i32, y: i32, z: i32 },
    Uniform4i { location: i32, x: i32, y: i32, z: i32, w: i32 },
    Uniform1f { location: i32, x: u32 },
    Uniform2f { location: i32, x: u32, y: u32 },
    Uniform3f { location: i32, x: u32, y: u32, z: u32 },
    Uniform4f { location: i32, x: u32, y: u32, z: u32, w: u32 },
    /// Draw `count` vertices from index `first` of the enabled arrays.
    DrawArrays { mode: u32, first: i32, count: u32 },
    /// Make a texture unit the active one.
    ActiveTexture { unit: u32 },
    /// Bind a texture object to a texture target of the active unit.
    BindTexture { target: u32, texture: u32 },
    /// Set an integer parameter of the texture bound to a target.
    TexParameteri { target: u32, pname: u32, param: u32 },
    /// Upload level 0 of the bound 2D texture as 8-bit RGB pixels.
    TexImage2D { width: u32, height: u32, pixels: Vec<u8> },
    /// Set the color that `Clear` fills the color buffer with.
    ClearColor { red: u32, green: u32, blue: u32, alpha: u32 },
    /// Clear the buffers selected by a mask.
    Clear { mask: u32 },
}

/// The device's shared binding state: the set of enabled attribute arrays
/// and the buffer bound as the active vertex array buffer (0 for none).
pub struct DeviceModel {
    pub enabled: Set<u32>,
    pub array_buffer: u32,
}

/// The binding state after one call.
pub open spec fn apply_call(m: DeviceModel, c: DeviceCall) -> DeviceModel {
    match c {
        DeviceCall::EnableVertexAttribArray { location } => DeviceModel {
            enabled: m.enabled.insert(location),
            array_buffer: m.array_buffer,
        },
        DeviceCall::DisableVertexAttribArray { location } => DeviceModel {
            enabled: m.enabled.remove(location),
            array_buffer: m.array_buffer,
        },
        DeviceCall::BindBuffer { target, buffer } => if target == GL_ARRAY_BUFFER {
            DeviceModel { enabled: m.enabled, array_buffer: buffer }
        } else {
            m
        },
        _ => m,
    }
}

/// The binding state after a sequence of calls, issued in order.
pub open spec fn apply_calls(m: DeviceModel, calls: Seq<DeviceCall>) -> DeviceModel
    decreases calls.len(),
{
    if calls.len() == 0 {
        m
    } else {
        apply_call(apply_calls(m, calls.drop_last()), calls.last())
    }
}

/// Issuing `a` and then `b` leaves the state that issuing `a + b` leaves.
pub proof fn lemma_apply_calls_concat(m: DeviceModel, a: Seq<DeviceCall>, b: Seq<DeviceCall>)
    ensures
        apply_calls(m, a + b) == apply_calls(apply_calls(m, a), b),
    decreases b.len(),
{
    if b.len() == 0 {
        assert(a + b =~= a);
    } else {
        assert((a + b).drop_last() =~= a + b.drop_last());
        assert((a + b).last() == b.last());
        lemma_apply_calls_concat(m, a, b.drop_last());
    }
}

} // verus!
