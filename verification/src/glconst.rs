//! Enumerant values of the graphics device API, read from the `gl` crate.
//!
//! The functions in this module are not verified: each returns a constant of
//! the `gl` crate, and its contract repeats the value that the API registry
//! assigns to that name.

use vstd::prelude::*;

verus! {

/// `gl::VERTEX_SHADER`: the shader type tag of the vertex stage, `0x8B31`.
#[verifier::external_body]
pub(crate) fn vertex_shader() -> (r: u32)
    ensures
        r == 0x8B31,
{
    gl::VERTEX_SHADER
}

/// `gl::GEOMETRY_SHADER`: the shader type tag of the geometry stage, `0x8DD9`.
#[verifier::external_body]
pub(crate) fn geometry_shader() -> (r: u32)
    ensures
        r == 0x8DD9,
{
    gl::GEOMETRY_SHADER
}

/// `gl::FRAGMENT_SHADER`: the shader type tag of the fragment stage, `0x8B30`.
#[verifier::external_body]
pub(crate) fn fragment_shader() -> (r: u32)
    ensures
        r == 0x8B30,
{
    gl::FRAGMENT_SHADER
}

/// `gl::LINEAR`: linear texture filtering, `0x2601`.
#[verifier::external_body]
pub(crate) fn linear() -> (r: u32)
    ensures
        r == 0x2601,
{
    gl::LINEAR
}

/// `gl::NEAREST`: nearest-texel texture filtering, `0x2600`.
#[verifier::external_body]
pub(crate) fn nearest() -> (r: u32)
    ensures
        r == 0x2600,
{
    gl::NEAREST
}

/// `gl::CLAMP_TO_EDGE`: texture coordinates clamp to the edge, `0x812F`.
#[verifier::external_body]
pub(crate) fn clamp_to_edge() -> (r: u32)
    ensures
        r == 0x812F,
{
    gl::CLAMP_TO_EDGE
}

/// `gl::MIRRORED_REPEAT`: texture coordinates repeat mirrored, `0x8370`.
#[verifier::external_body]
pub(crate) fn mirrored_repeat() -> (r: u32)
    ensures
        r == 0x8370,
{
    gl::MIRRORED_REPEAT
}

/// `gl::REPEAT`: texture coordinates repeat, `0x2901`.
#[verifier::external_body]
pub(crate) fn repeat() -> (r: u32)
    ensures
        r == 0x2901,
{
    gl::REPEAT
}

/// `gl::COLOR_ATTACHMENT0`: the first color attachment point of a
/// framebuffer, `0x8CE0`. The following attachment points are numbered
/// consecutively from it.
#[verifier::external_body]
pub(crate) fn color_attachment0() -> (r: u32)
    ensures
        r == 0x8CE0,
{
    gl::COLOR_ATTACHMENT0
}

/// `gl::DEPTH_ATTACHMENT`: the depth attachment point of a framebuffer,
/// `0x8D00`.
#[verifier::external_body]
pub(crate) fn depth_attachment() -> (r: u32)
    ensures
        r == 0x8D00,
{
    gl::DEPTH_ATTACHMENT
}

/// `gl::TEXTURE0`: the first texture unit, `0x84C0`. The following units are
/// numbered consecutively from it.
#[verifier::external_body]
pub(crate) fn texture0() -> (r: u32)
    ensures
        r == 0x84C0,
{
    gl::TEXTURE0
}

/// `gl::FALSE`: the status value with which the device reports a failed
/// compilation or link, `0`.
#[verifier::external_body]
pub(crate) fn status_false() -> (r: u8)
    ensures
        r == 0,
{
    gl::FALSE
}

} // verus!
