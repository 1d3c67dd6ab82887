//! Core of a small interactive line shell: history navigation, the persisted
//! configuration record, the command dispatcher's decisions, and the line
//! editor's reaction to key events. Terminal, filesystem and process side
//! effects are left to the surrounding program; this crate states and proves
//! what each decision returns.

pub mod command;
pub mod customization;
pub mod editor;
pub mod history;
pub mod render;
pub mod text;
pub mod validator;
