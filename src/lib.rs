//! A browsable catalog of community game modifications: the entry formatters,
//! the state store that applies load events, and the view deriver that turns
//! the state into a tree of presentational nodes.

pub mod entry;
pub mod laws;
pub mod markup;
pub mod page;
pub mod store;
