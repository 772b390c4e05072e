use vstd::prelude::*;

pub mod content;
pub mod date;
pub mod layout;
pub mod text;
pub mod theme;

pub use layout::Config;

verus! {

/// Configuration errors reported before any drawing happens.
#[derive(Debug, Clone, Copy, PartialEq, Eq, Structural)]
pub enum ConfigError {
    /// The theme name is not one of the known themes.
    UnknownTheme,
    /// The image has a zero width or height.
    EmptyImage,
}

} // verus!
