//! Core of a terminal dashboard for a change graph: chord resolution, the
//! command builder, the command queue and the application state machine.
pub mod builtin;
pub mod cli;
pub mod command_tree;
pub mod dispatch;
pub mod display;
pub mod editor;
pub mod help;
pub mod info;
pub mod jj_command;
pub mod keys;
pub mod log_rows;
pub mod message;
pub mod model;
pub mod scroll;
pub mod tree_position;
pub mod trie_proofs;
