//! A chat assistant that collects a user's location through a short dialogue
//! and reports the current weather there.
//!
//! The library holds the dialogue's logic: the per-user state, the command
//! grammar, the transition rules, the rendering of replies and an in-memory
//! session store. Transport, HTTP and durable storage stay with the caller,
//! which performs the requests that the dialogue asks for and hands back what
//! the weather service answered.
pub mod model;
pub mod command;
pub mod text;
pub mod dialogue;
pub mod store;
pub mod laws;
