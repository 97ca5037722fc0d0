//! Help pages for command-line programs, rendered as markdown for a terminal.
//!
//! A help request names a topic as a sequence of segments. The topic is
//! resolved against a command tree, the node it names is turned into a
//! [`HelpPage`], the page is composed into one markdown document, and the
//! pager decides whether that document is printed once or shown in a
//! scrollable view.
pub mod command_tree;
pub mod doc_registry;
pub mod help_command;
pub mod help_page;
pub mod legend;
pub mod pager;
pub mod renderer;
pub mod text;
pub mod theme;

pub use command_tree::{ArgSpec, CommandNode, ValueRange};
pub use doc_registry::{CommandDoc, DocRegistry};
pub use help_command::{
    help_content, resolve_help, target_content, HelpArgs, HelpContent, HelpError, HelpTarget,
};
pub use help_page::{HelpArg, HelpOption, HelpPage, HelpSubcommand};
pub use legend::{join_justify_between, visible_width};
pub use pager::{fits_screen, pager_step, view_area, ScrollState};
pub use renderer::compose;
pub use theme::{apply_accent, HelpTheme};

pub use termimad::crossterm::style::Color;
pub use termimad::MadSkin;
