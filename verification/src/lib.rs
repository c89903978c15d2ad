//! Core logic of a file-watching library: classification of raw filesystem
//! notifications into logical changes, a deduplicating change aggregator with
//! an error slot, the debounce/timeout polling state machine, the policy that
//! selects between an event-driven and a polling backend, and the watcher
//! lifecycle. The OS event source itself and the host-binding glue live
//! outside this crate and feed these components plain values.

pub mod aggregator;
pub mod changes;
pub mod classify;
pub mod debounce;
pub mod lifecycle;
pub mod selector;

pub use aggregator::ChangeAggregator;
pub use changes::ChangeKind;
pub use changes::ChangeRecord;
