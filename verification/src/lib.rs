//! Building blocks of a forum "pokemon room" page generator: the data model
//! of pokemon, rooms and species, growth by post count, evolution lines,
//! and rendering to BBCode and inline CSS.
pub mod text;
pub mod view;
pub mod model;
pub mod error;
pub mod state;
pub mod query;
