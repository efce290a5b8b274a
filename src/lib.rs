//! Client-side logic of a document library browser: the result model, the
//! image fit planner, command parsing and the interactive session state.

pub mod fit;
pub mod text;
pub mod result;
pub mod command;
pub mod request;
pub mod select;
pub mod session;
pub mod image;
pub mod api;
pub mod listing;
