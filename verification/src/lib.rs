//! Turns an error and the chain of its causes into an event record, and decides
//! whether a processing context takes that event.

pub mod assemble;
pub mod chain;
pub mod debug_name;
pub mod hub;
pub mod laws;
pub mod protocol;

pub use assemble::{event_from_error, exception_from_error};
pub use chain::{walk, ErrorInfo, Link};
pub use debug_name::parse_type_from_debug;
pub use hub::{capture_error, Dispatch, DispatchView, EventId, Hub};
pub use protocol::{Event, EventView, Exception, ExceptionView, Level};
