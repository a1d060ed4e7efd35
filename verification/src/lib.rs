//! Verified core of a bidirectional chat-network bridge.
//!
//! The library holds the relay logic of a scene-switching notification bot:
//! inbound chat events are normalized into command-handler inputs, scene
//! switches are turned into per-channel notifications enriched from a shared
//! channel-state store, and every decision is stated in a contract. The
//! network transport, the command handler and the task runtime live outside
//! the library; they exchange plain values with it.

pub mod messages;
pub mod notifier;
pub mod relay;
pub mod store;
