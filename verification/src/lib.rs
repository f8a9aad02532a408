//! Client-side logic of a screen-capture link over RDMA: the pixel and window
//! model, the scatter/gather descriptors handed to the network adapter, the
//! per-window connection state and the client's connection bookkeeping.
//!
//! The network adapter itself (device files, queues, memory registration,
//! connecting) is driven by the application around this library; this crate
//! decides what is asked of it.

pub mod pixel;
pub mod sge;
pub mod window;
pub mod connection;
pub mod client;
