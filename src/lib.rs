//! Formatting of HTML and XML documents through the Tidy engine: the option
//! model, the translation of options into engine settings, the collection of
//! the engine's diagnostics and the output surfaces of one rendered buffer.

pub mod config;
pub mod diagnostics;
pub mod document;
pub mod options;
pub mod output;

pub use config::{config_plan, ConfigStep, OptionId};
pub use diagnostics::{split_lines, Diagnostics};
pub use document::DocState;
pub use options::{CustomTags, FormatOptions, Indent, LineEnding};
pub use output::{FormatError, Rendered};
