//! Verified conversion of exam application documents (photos, signatures,
//! thumb impressions, certificates) to the pixel dimensions, encoding and
//! file-naming conventions that each supported exam board demands.

pub mod catalog;
pub mod clock;
pub mod convert;
pub mod imaging;
pub mod naming;
pub mod strutil;
