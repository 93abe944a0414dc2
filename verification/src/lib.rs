//! Styles for file system entries, configured by a colon-separated string in
//! the manner of the `LS_COLORS` environment variable.
//!
//! A registry ([`LsColors`]) holds a style for each configured indicator and
//! an ordered list of rules for file name suffixes. It is built from the
//! default styles and a configuration, and then asked for the style of a path.
//! The library reads neither the environment nor the file system: what is
//! known of an entry is handed to it as [`Metadata`].
//!
//! ```ignore
//! use lscolors::{LsColors, Style};
//!
//! let lscolors = LsColors::from_string("di=01;34:*.zip=01;31");
//! let style: Option<&Style> = lscolors.style_for_path("some/folder/archive.zip");
//! ```
//!
//! The modules, from the leaves up:
//!
//! - [`text`]: character sequences, their pieces, lowercase and decimal bytes;
//! - [`style`]: colors, font styles and the parser of SGR parameters;
//! - [`indicator`]: the categories of entries and their two-letter keys;
//! - [`registry`]: the registry and the entries of a configuration;
//! - [`path`]: the components of a path;
//! - [`file`]: the metadata of an entry, its indicator and the style of a path;
//! - [`components`]: the components of a path, each with its style;
//! - [`laws`]: what holds of every registry and every configuration;
//! - [`baseline`]: the default styles written out.

pub mod baseline;
pub mod components;
pub mod file;
pub mod indicator;
pub mod laws;
pub mod path;
pub mod registry;
pub mod style;
pub mod text;

pub use crate::components::StyledComponents;
pub use crate::file::{FileType, Metadata};
pub use crate::indicator::Indicator;
pub use crate::registry::LsColors;
pub use crate::style::{Color, FontStyle, Style};
