//! Bubble relationship graph and the directory that binds it to spawn
//! operations, verified with Verus.

pub mod graph_store;
pub mod graph;
pub mod bubbles;
pub mod forces;
pub mod cursor_control;
pub mod input;
pub mod history;
pub mod text;
