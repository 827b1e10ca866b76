//! A host-provided message socket, such as a browser's `WebSocket`, adapted
//! to a pull-based stream of byte payloads and a sink for them.
//!
//! The adapter decides and the caller acts. A connection starts with
//! [`Provider::connect`], which hands back a [`Handshake`] and the requests
//! to carry out on the host. The host's open and error events go to the
//! handshake; the first of them settles it. [`Socket::new`] turns the
//! outcome into the adapter or into the connect failure. From then on the
//! host's message and close events go to the [`Socket`], the reader pulls
//! with [`Socket::poll_next`], and each operation of the sink returns the
//! request that the caller puts to the host and takes the host's answer
//! back.
//!
//! What the adapter holds is described by mathematical values: requests by
//! their views, the stream by [`stream::StreamView`]. The properties that
//! hold of every run of events are proved beside the definitions.

pub mod channel;
pub mod handshake;
pub mod host;
pub mod provider;
pub mod socket;
pub mod stream;

pub use channel::CAPACITY;
pub use handshake::Handshake;
pub use host::Failure;
pub use host::Request;
pub use host::Slot;
pub use provider::Provider;
pub use socket::Socket;
