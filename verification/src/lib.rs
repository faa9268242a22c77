//! A typed marshaling and lifecycle layer for SRT sockets.
//!
//! The transport engine itself is reached by the embedding program; this
//! library decides what is handed to each engine call and what the engine's
//! answer means: which bytes carry an option value, which typed value a
//! returned buffer holds, which error a failed call becomes, and when a
//! socket identifier may still be closed.

pub mod address;
pub mod byte_order;
pub mod connection;
pub mod errors;
pub mod options;
pub mod status;

pub use address::SockAddrIn;
pub use byte_order::ByteOrder;
pub use connection::{cleanup_srt, startup_srt, SrtSocketConnection, SRTSOCKET};
pub use errors::{get_last_srt_error, SrtError};
pub use options::{SrtOptionValue, SrtSocketOptions};
pub use status::SrtSocketStatus;
