//! Path helpers of a file finder: separator rewriting, `./` stripping, absolute forms.

pub mod text;
pub mod components;
pub mod host;
pub mod paths;
pub mod entry;
