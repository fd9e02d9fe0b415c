//! Articuelate core: the cue model, the flat cue chain, and the decision
//! logic of the execution engine and the audio subsystem.

pub mod audio;
pub mod backend;
pub mod cuelist;
pub mod exec;
pub mod layout;
pub mod metrics;
pub mod model;
pub mod state;
pub mod text;
pub mod theme;
pub mod ui;
