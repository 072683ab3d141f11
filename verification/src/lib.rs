//! The playback and event core of an animated desktop assistant.
//!
//! A sprite character idles, turns active while a question is in flight and
//! returns to idle once the answer arrives. Three parts cooperate over one
//! broadcast channel of [`actions::DispatchActions`]:
//!
//! * [`bus`]: the dispatch bus, a bounded broadcast channel;
//! * [`animation`]: the scheduler that owns the playback state, picks clips
//!   and advances frames;
//! * [`state_updater`]: the reducer that folds events into the snapshot the
//!   user interface reads.
//!
//! [`assistant`] holds the decisions of the worker that answers questions,
//! and [`consistency`] what the scheduler and the reducer agree on.
//! Everything here is single-threaded logic: spawning, sleeping and locking
//! belong to the program that embeds the library.

pub mod actions;
pub mod animation;
pub mod app;
pub mod assistant;
pub mod bus;
pub mod consistency;
pub mod gui_state;
pub mod models;
pub mod state_updater;
