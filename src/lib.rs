//! Renders an error message together with its chain of causes, plainly or with
//! terminal emphasis, and keeps such a chain as an owned, detached value.

mod color;
mod formatter;
mod frozen;
pub mod laws;
pub mod layout;
mod style;

pub use color::ErrorTraceColorFormatter;
pub use formatter::ErrorTraceFormatter;
pub use frozen::{ErrorTrace, FrozenTrace};
