//! A streaming markdown renderer: a single-pass state machine that consumes
//! markdown structural events and emits abstract visual block commands, plus
//! the viewer's settings, language and translation tables.

pub mod events;
pub mod lang;
pub mod laws;
pub mod render;
pub mod state;
pub mod viewer;
pub mod visuals;
