//! Durable local state for a desktop application: one versioned envelope
//! file, written atomically and reloaded on demand.
//!
//! The envelope holds two opaque JSON payloads, the version of the format
//! and the time of saving. Four operations work on it: save, load, probe for
//! the file, and tell its path. The library decides; it performs no I/O.
//! Each operation is a task that asks its host for one action at a time:
//!
//! ```text
//! let mut step = store::load_data();
//! loop {
//!     match step {
//!         Step::Done(outcome) => return outcome,
//!         Step::Ask(task, action) => {
//!             let event = host.perform(action);
//!             step = store::advance(task, event).expect("the event answers the action");
//!         }
//!     }
//! }
//! ```
//!
//! - [`envelope`]: the envelope, and its encoding as pretty-printed JSON.
//! - [`location`]: the path of the data file.
//! - [`store`]: the tasks and their decisions.
//! - [`failure`]: what an operation fails with.
//! - [`json`]: what is taken on trust of `serde_json`.
//! - [`clock`]: what is taken on trust of `chrono`.
//! - [`host`]: a mathematical host, for the laws to speak of.
//! - [`laws`]: what is proved of the store on every host.

pub mod clock;
pub mod envelope;
pub mod failure;
pub mod host;
pub mod json;
pub mod laws;
pub mod location;
pub mod store;

pub use envelope::AppData;
pub use failure::{ErrorKind, StoreError};
pub use store::{Action, Event, Reply, Step, Task};
