//! Core of a terminal client for numbered teletext pages: the page data,
//! the screen state, the key bindings, the event loop's transitions and the
//! timing of the input source. Everything here is pure state and decisions;
//! a program around it reads keys, draws and talks to the network.

pub mod app_state;
pub mod event_loop;
pub mod input_source;
pub mod keys;
pub mod runs;
pub mod svt;
pub mod text;
