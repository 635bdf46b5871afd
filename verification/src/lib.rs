//! Causal-ordering core of a sequence CRDT for collaborative editing:
//! identified runs of inserted content ("insertion spans") carrying left and
//! right causal origin anchors and an activation status, together with the
//! merge / slice / containment / length algebra that a run-length-compressed
//! span index relies on.

pub mod id;
pub mod span;
pub mod status;

pub use id::CounterSpan;
pub use id::ID;
pub use id::IdSpan;
pub use span::ContentType;
pub use span::YSpan;
pub use status::Status;
pub use status::StatusChange;
