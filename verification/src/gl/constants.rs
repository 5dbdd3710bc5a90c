//! The numbers by which the rendering device knows its modes, targets and
//! formats. They are those of WebGL 2.
use vstd::prelude::*;

verus! {

pub const DEPTH_BUFFER_BIT: u32 = 0x0100;

pub const STENCIL_BUFFER_BIT: u32 = 0x0400;

pub const COLOR_BUFFER_BIT: u32 = 0x4000;

pub const TRIANGLES: u32 = 0x0004;

pub const TRIANGLE_STRIP: u32 = 0x0005;

pub const CULL_FACE: u32 = 0x0B44;

pub const DEPTH_TEST: u32 = 0x0B71;

pub const TEXTURE_2D: u32 = 0x0DE1;

pub const FLOAT: u32 = 0x1406;

pub const NEAREST: u32 = 0x2600;

pub const TEXTURE_MAG_FILTER: u32 = 0x2800;

pub const TEXTURE_MIN_FILTER: u32 = 0x2801;

pub const TEXTURE_WRAP_S: u32 = 0x2802;

pub const TEXTURE_WRAP_T: u32 = 0x2803;

pub const CLAMP_TO_EDGE: u32 = 0x812F;

pub const DEPTH_STENCIL_ATTACHMENT: u32 = 0x821A;

pub const TEXTURE0: u32 = 0x84C0;

pub const DEPTH_STENCIL: u32 = 0x84F9;

pub const RGBA32F: u32 = 0x8814;

pub const ARRAY_BUFFER: u32 = 0x8892;

pub const STATIC_DRAW: u32 = 0x88E4;

pub const FRAGMENT_SHADER: u32 = 0x8B30;

pub const VERTEX_SHADER: u32 = 0x8B31;

pub const COMPILE_STATUS: u32 = 0x8B81;

pub const COLOR_ATTACHMENT0: u32 = 0x8CE0;

pub const FRAMEBUFFER: u32 = 0x8D40;

pub const RENDERBUFFER: u32 = 0x8D41;

} // verus!
