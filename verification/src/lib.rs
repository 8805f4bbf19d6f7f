//! Statement lifecycle and parameter encoding for the PostgreSQL extended
//! query protocol.
//!
//! The crate decides what is sent to a server and in which order; it performs
//! no transport itself. A statement builds the arguments of each wire call,
//! the caller makes the call on its connection and reports the outcome back
//! as a reply, and the statement says what to do next.
//!
//! Two kinds of statement exist: [`prepared::Statement`], which the server
//! prepares once under a name, and [`bare::Statement`], which is sent whole
//! on every execution. A deployment uses one of them throughout.

pub mod bare;
pub mod error;
pub mod exchange;
pub mod params;
pub mod prepared;
pub mod types;
pub mod wire;
