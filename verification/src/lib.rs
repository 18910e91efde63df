//! The client-side state of a control panel for audio and bluetooth
//! hardware whose authoritative state lives in a backend service.
//!
//! The registry keeps the audio devices, streams and cards that the backend
//! knows ([`store`], [`records`]) and which device of a kind is the default
//! ([`defaults`]). The processor ([`model`]) applies the user's commands and
//! the backend's events to it, one message at a time; [`laws`] states what
//! holds of every message. The worker ([`worker`]) decides what becomes of
//! each notification while its page is the active one ([`page`]). The
//! bluetooth domain ([`bluetooth`], [`path_store`]) is processed in the same
//! way.
//!
//! Nothing here talks to the backend or draws anything: every function
//! takes plain values and says in its result what its surroundings are to
//! do.

pub mod bluetooth;
pub mod components;
pub mod defaults;
pub mod laws;
pub mod messages;
pub mod model;
pub mod network;
pub mod page;
pub mod path_store;
pub mod records;
pub mod store;
pub mod utils;
pub mod volume;
pub mod worker;
