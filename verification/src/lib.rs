//! An in-process event bus for a chat-bot front end, together with the
//! connection-lifecycle supervisor that drives it.
//!
//! The heart of the crate is a tag-indexed subscriber registry
//! ([`registry::MessageBox`]) supporting dynamic register/unregister, an
//! event bus performing ordered, fault-isolated fan-out planning, and a
//! supervisor ([`world::World`]) that turns raw inbound protocol frames into
//! a small set of derived domain events with strict ordering guarantees.
//!
//! The wire protocol itself, the actual delivery of messages to subscribers
//! running on other event loops, and process bootstrap are external
//! collaborators: the supervisor's methods return the commands and fan-out
//! plans to perform, and take the outcomes back, so that everything the crate
//! decides is verified while the surrounding runtime stays free to perform
//! the actions however it likes.

pub mod bot;
pub mod bus;
pub mod channel;
pub mod config;
pub mod frame;
pub mod logging;
pub mod messages;
pub mod registry;
pub mod world;

pub use crate::bot::Bot;
pub use crate::channel::Channel;
pub use crate::frame::{Command, Frame};
pub use crate::registry::{Handle, MessageBox, RegistryOp};
pub use crate::world::World;
