pub mod codec;
pub mod convert;
pub mod format;
pub mod heuristics;
