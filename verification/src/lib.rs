//! Windows platform strings, wide-string conversion and Windows account lookups.
pub mod utf16;
pub mod error;
pub mod wide;
pub mod plat;
pub mod access;
pub mod winsys;
pub mod component;
