//! A connection manager for a real-time gateway: the session state machine, the
//! heartbeat scheduler, the reconnection policy with exponential backoff, and the
//! ordered event queue that consumers pull from.

pub mod backoff;
pub mod heartbeat;
pub mod manager;
pub mod queue;
pub mod session;
