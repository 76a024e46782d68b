//! Affine-transformation matrices for a handheld console's display hardware.
//!
//! A full-precision working matrix ([`affine::AffineMatrix`]) supports
//! construction from rotations, scalings and translations, and composition by
//! multiplication, all over wide fixed-point numbers.  Two narrower forms
//! mirror the hardware parameter blocks: one for affine backgrounds
//! ([`affine::AffineMatrixBackground`]) and one for affine objects
//! ([`affine::AffineMatrixObject`]).  Narrowing is either fallible and exact
//! or wrapping and total; widening is always exact.
//!
//! The [`bitmap3`] module models the single-buffer bitmap frame buffer that
//! the same display hardware offers.

pub mod affine;
pub mod bitmap3;
pub mod fixed;
