//! Verified core of a libavutil binding: the value types libavutil exchanges,
//! the checks that guard its calls, and the pure computations — clipping,
//! back-reference copies, plane copies, path and format helpers — proved
//! against their specifications.

pub mod avstring;
pub mod avutil;
pub mod bprint;
pub mod buffer;
pub mod channel_layout;
pub mod common;
pub mod dict;
pub mod dovi_meta;
pub mod file;
pub mod film_grain_params;
pub mod frame;
pub mod hash;
pub mod hdr_dynamic_metadata;
pub mod hwcontext;
pub mod iamf;
pub mod imgutils;
pub mod log;
pub mod mathematics;
pub mod mem;
pub mod pixfmt;
