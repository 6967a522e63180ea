//! Prepends a block of text to the front of an existing file, safely.
//!
//! The library holds every decision of the tool: how command-line
//! arguments are read, how the text is normalized, when a target is
//! accepted, and the step-by-step plan of the atomic prepend itself. The
//! plan is a state machine that asks its caller to perform one file
//! operation at a time and is proved, against a model of the disk, to
//! leave the target either untouched or holding exactly the new header
//! followed by the old bytes.
pub mod args;
pub mod config;
pub mod engine;
pub mod error;
pub mod input;
pub mod paths;
pub mod validate;

pub use args::{parse_arguments, Invocation};
pub use config::Config;
pub use engine::{Action, Event, Phase, PrependEngine, BUFFER_SIZE, PREVIEW_SIZE};
pub use error::PrependError;
pub use input::{text_from_argument, text_from_input};
pub use validate::{extension_warning, validate_file, FileStatus};
