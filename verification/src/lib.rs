//! The synchronous core of a SkySpark history-write client: the steps by
//! which a session is built, the reading of timestamps, the assembling of a
//! write, and the errors of each, all stated and proved over plain values.

pub mod error;
pub mod reference;
pub mod session;
pub mod timestamp;
pub mod trusted;
pub mod write;

pub use error::{ClientError, ErrorCategory, PrError};
pub use reference::EntityRef;
pub use session::{Connecting, Progress, SkySparkClient, Step};
pub use timestamp::{normalize, Convention, SampleBatch, UtcInstant};
pub use write::WriteRequest;
