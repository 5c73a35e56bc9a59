//! The inputs of the resolution (flags, environment), its errors, and the
//! functions that resolve each facet of the output configuration.

pub mod color_scale;
pub mod error;
pub mod parser;
pub mod table;
pub mod vars;
pub mod view;

pub use self::error::{NumberSource, OptionsError};
pub use self::vars::Vars;
