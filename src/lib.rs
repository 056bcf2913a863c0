//! A two-dimensional gravitational N-body engine: its bodies and state,
//! the layout of its default system, the order in which body pairs are
//! visited, and the operations that change a simulation between steps.
//! Every item is generic over the scalar type or uses integers only.

pub mod body;
pub mod layout;
pub mod pairs;
pub mod state;
pub mod system;
