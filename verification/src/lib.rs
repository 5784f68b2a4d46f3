//! Interactive command-line prompts: the state machines, the list window and
//! the frames they draw, as verified functions on plain values.

pub mod autocomplete;
pub mod chars;
pub mod confirm;
pub mod draw;
pub mod event;
pub mod figures;
pub mod filter;
pub mod input;
pub mod multi_select;
pub mod render;
pub mod select;
pub mod text;
pub mod utils;
