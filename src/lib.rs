//! Request/response correlation for a framed, transaction-tagged control
//! protocol: a one-byte frame header codec, a frame parser, a bounded pool of
//! transaction identifiers with a first-come-first-served wait queue, and a
//! frame handler that ties outbound requests to inbound responses.

pub mod error;
pub mod frame;
pub mod handler;
pub mod header;
pub mod laws;
pub mod reader;
pub mod selectors;
pub mod tracker;

pub use error::FrameError;
pub use header::{decode, decode_tid, encode, Header};
pub use frame::{outbound_frame, SpinelFrameRef};
pub use handler::{FrameHandler, Inbound, SendStep};
pub use tracker::{Registration, Released, RequestTracker, POOL_SIZE};
pub use selectors::{ComponentSelector, ToSelectorArguments};
pub use reader::{
    ArchiveReader, BatchIteratorType, ClientSelectorConfiguration, DataType, Inspect,
    InspectMetadata, Lifecycle, LifecycleEventMetadata,
};
