//! The interaction core of a desktop demo: a menu bar's open-path state
//! machine, a tab router, a split layout, and a terminal tab that folds the
//! outcome of each command into its transcript.

pub mod app;
pub mod layout;
pub mod menu;
pub mod shell;
pub mod tabs;
