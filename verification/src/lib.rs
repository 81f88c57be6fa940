//! The "outline" command of a text-editing application, kept apart from the
//! application itself.
//!
//! The command looks at the document that is active in a workspace and
//! renders the outline of its symbols as text. The workspace, the editor and
//! the document are given as plain values, so that what the command decides
//! and what it writes can be stated and proved:
//!
//! - [`error`]: the ways in which the command fails, and their messages;
//! - [`document`]: a frozen view of one document, with its path and outline;
//! - [`workspace`]: the active item of a workspace, and how the document under
//!   it is found;
//! - [`text`]: the text of an outline, as a function on sequences of
//!   characters, with the facts that hold of it;
//! - [`command`]: what every command offers, and the value it hands back;
//! - [`outline`]: the command itself.

pub mod command;
pub mod document;
pub mod error;
pub mod outline;
pub mod text;
pub mod workspace;

pub use error::CommandError;
pub use command::{ArgumentCompletion, OutputSection, SlashCommand, SlashCommandOutput};
pub use document::{DocumentSnapshot, Outline, OutlineEntry};
pub use outline::{render_outline, OutlineSlashCommand};
pub use text::format_outline;
pub use workspace::{resolve_active_document, ActiveItem, Workspace};
