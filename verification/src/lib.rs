//! Text renderings of optional values, results, bounded slices and Unix
//! timestamps, each with a contract that says exactly which characters come out.
//!
//! The element types say what their text is through [`DisplayText`] and
//! [`DebugText`]; the wrappers in the other modules arrange those texts.

pub mod decimal;
pub mod display_option;
pub mod display_result;
pub mod display_slice;
pub mod display_unix_epoch;
pub mod primitives;
pub mod text;

pub use display_option::DisplayDebugOptionExt;
pub use display_option::DisplayOptionExt;
pub use display_result::DisplayResultExt;
pub use display_slice::DisplaySliceExt;
pub use display_unix_epoch::DisplayUnixTimeStampExt;
pub use text::DebugText;
pub use text::DisplayText;
