//! Supervision logic for a `cloudflared` tunnel agent.
//!
//! The crate holds every decision that bringing a tunnel up involves: how the
//! command line is put together, where the agent's binary comes from, how the
//! public URL is picked out of the agent's diagnostic stream, and when a
//! handle may be handed to the caller. Running processes, reading streams and
//! fetching files are left to the caller, who reports what happened and is
//! told what to do next.

pub mod error;
pub mod handshake;
pub mod invocation;
pub mod locator;
pub mod pattern;
pub mod platform;
pub mod text;
pub mod tunnel;

pub use error::{TunnelError, UrlFault};
pub use tunnel::{Tunnel, TunnelBuilder};
