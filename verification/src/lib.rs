//! Thread-lifecycle event capture: the record schema shared by the probes and
//! the consumers, the rules by which a probe builds a record, the report
//! that a consumer renders for every record it drains, and the lifecycle of
//! the pipeline around them.

pub mod consumer;
pub mod event;
pub mod lifecycle;
pub mod probe;
pub mod report;
pub mod text;
pub mod wire;

pub use consumer::{drain, new_buffers, Outcome};
pub use event::{DecodeError, ThreadFunc, ThreadInfo, COMM_LEN, RECORD_SIZE};
pub use lifecycle::{step, Action, Event, Pending, State, Status};
pub use probe::{
    capture, probe_pthread_create, probe_pthread_detach, probe_pthread_exit, probe_pthread_join,
};
pub use report::{timespec_nanos, Reporter, NANOS_PER_SEC};
