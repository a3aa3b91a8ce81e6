//! A video frame: a multi-plane pixel buffer with its metadata, bounds-checked
//! byte views of each plane, format-checked typed views, and a copy protocol
//! that duplicates pixels and metadata.
pub mod chroma;
pub mod color;
pub mod component;
pub mod format;
pub mod picture;
pub mod rational;
pub mod lemmas;
pub mod video;
