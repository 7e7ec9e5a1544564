//! Disk hygiene: finding files by name pattern, and finding, sizing and clearing the
//! build-output directories of Cargo and Maven projects. Walking the disk, reading
//! manifests and deleting directories happen outside; this library decides what to
//! report from what was found.
pub mod cleanser;
pub mod entry;
pub mod error;
pub mod finder;
pub mod kinds;
pub mod maven;
pub mod outside;
pub mod parts;
pub mod response;
pub mod text;
