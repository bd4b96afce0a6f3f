//! Staff photo directory: file-name conventions and preview rendering rules.

pub mod codec;
pub mod filename;
pub mod picture;
pub mod preview;
pub mod scanner;
