//! A growing graph of canvas points joined by edges, the input handling that
//! extends it one node at a time, and the draw operations that render it.

pub mod graph;
pub mod input;
pub mod render;
pub mod session;
pub mod random;
