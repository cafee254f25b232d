//! A bridge between Reticulum and TCP.
//!
//! An instance runs an event loop over a Reticulum node. It listens for links to its own
//! destinations, sets up links to others, and makes a stream of each. The SOCKS5 proxy
//! connects clients to destinations by name; the reverse proxy connects destinations to
//! TCP ports.
//!
//! What an instance, the routing and the streams come to is decided here, and proved. What
//! waits, performs I/O or reads files belongs to the caller: it hands in what happened and is
//! told what to do next.

pub mod channel;
pub mod client;
pub mod error;
pub mod history;
pub mod ids;
pub mod instance;
pub mod laws;
pub mod loop_laws;
pub mod model;
pub mod queue;
pub mod reverse;
pub mod socks;
pub mod stream;
pub mod text;
pub mod value_laws;

pub use error::Error;
pub use ids::{DestinationHash, LinkId};
pub use instance::{Connector, ReticulumInstance};
pub use stream::{Listener, ReticulumStream};
