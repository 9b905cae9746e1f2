//! The session core of an embedded debugger, for one core of the target.
//!
//! A [`session::CoreHandle`] works on what the session remembers of a core:
//! the status the client was last told of, the hardware breakpoints that are
//! set, the captured call stack, the logging connection.
//!
//! The library never touches the probe, the symbol resolver or the client
//! connection. An operation that needs the probe or the resolver is a state
//! machine: a call returns the [`transaction::Transaction`] to carry out
//! next, and the operation is called again with the
//! [`transaction::Reply`]. What the client is to be told is queued in the
//! [`protocol::DebugAdapter`], for the owner of the connection to send.
//!
//! Each operation comes with a spec function that says what one call does,
//! and the modules whose names end in `_laws` prove what holds of whole runs.

pub mod text;
pub mod status;
pub mod source;
pub mod error;
pub mod breakpoint;
pub mod rtt;
pub mod protocol;
pub mod transaction;
pub mod session;
pub mod poll;
pub mod poll_laws;
pub mod manager;
pub mod clear_all;
pub mod verify_set;
pub mod recompute;
pub mod manager_laws;
pub mod recompute_laws;
pub mod logging;
pub mod logging_laws;

pub use session::{CoreData, CoreHandle};
