//! SHA-512: padding, message schedule and compression, verified against a
//! mathematical model of the standard.
pub mod constants;
pub mod helpers;
pub mod padding;
pub mod compression;
pub mod hasher;
pub mod format;
