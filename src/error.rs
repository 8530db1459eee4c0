use vstd::prelude::*;

verus! {

/// Why a rendering operation failed.
#[derive(Clone, Copy, Debug, PartialEq, Eq, Structural)]
pub enum RenderError {
    /// A shader, texture or configuration file is absent.
    ResourceNotFound,
    /// A shader failed to compile.
    CompileError,
    /// A program failed to link.
    LinkError,
    /// An attribute or uniform name did not resolve to a location.
    BindingNotFound,
    /// A uniform payload holds no values or more than four, or a vertex
    /// layout has no components.
    InvalidArity,
    /// A texture unit outside 0 to 7 was asked for.
    InvalidSamplerIndex,
    /// An image could not be decoded.
    DecodeError,
    /// The shader stages and the command lists of a scene differ in number.
    StageCountMismatch,
}

} // verus!
