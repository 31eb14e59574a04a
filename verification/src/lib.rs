//! Packaging pipeline for calculator appvar images: validation of the
//! two-letter variable prefix, assembly of named binary payloads into a
//! single archive container, and compression of that container into the
//! one distributable output file.

pub mod archive;
pub mod compress;
pub mod naming;
pub mod payload;
pub mod pipeline;
pub mod validate;
