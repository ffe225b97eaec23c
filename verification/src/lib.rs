//! Update core of a desktop weather display.
//!
//! All user-visible state lives in one [`application::WeatherApplication`].
//! It changes only when a [`message::WeatherUpdate`] is applied to it, one
//! message at a time and each in full. Applying a message may enqueue a
//! follow-up message and may ask the front end for outside work (a forecast
//! request, a location search, saving the preferences); the outcome of such
//! work comes back as further messages on the same channel.
//!
//! [`model`] states what every message does, over plain mathematical values;
//! [`application`] is the executable state, proved to do exactly that;
//! [`laws`] holds what follows for every state and every queue.

pub mod weather;
pub mod location;
pub mod message;
pub mod presentation;
pub mod model;
pub mod channel;
pub mod application;
pub mod task;
pub mod laws;
