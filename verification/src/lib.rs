//! The decisions of a `tracing` layer that writes spans and events to Event
//! Tracing for Windows and to Linux user events: how a provider is configured
//! and registered, which activity a span or an event belongs to, what is kept
//! with a span, and what is handed to the provider for each callback.

pub mod activity;
pub mod event;
pub mod guid;
pub mod laws;
pub mod layer;
pub mod names;
pub mod slots;
pub mod span;
