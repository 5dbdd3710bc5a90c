//! A retained-mode layer over an immediate-mode rendering context.
//!
//! The crate holds the rules of that layer: which requests a resource sends
//! to the rendering device and in what order, how vertex data is laid out,
//! and how sprite requests merge into draw commands. It never talks to a GPU
//! itself. Every request goes through the [`gl::Device`] trait, which the
//! embedding program implements, and the [`gl::GL`] context keeps the history
//! of what was asked and answered so that contracts can speak of it.
//!
//! Numbers that the embedding program computed travel through the crate as
//! [`math::Scalar`]s, which hold the bit pattern of a single-precision value.
//! The crate compares them as numbers and never computes with them. Where it
//! has a number of its own to hand to the device, a coordinate in pixels or
//! a scale of the screen, it hands over the whole numbers that make it up,
//! as a [`gl::Component`], and the device forms the sum or the quotient.
pub mod error;
pub mod gl;
pub mod math;
