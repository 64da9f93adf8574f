//! The lifecycle of a window whose context is handed to a render worker:
//! input dispatch, the one-shot shutdown channel, the worker's decisions and
//! the coordinator's ordered shutdown, each as a verified state machine.

pub mod events;
pub mod lifecycle;
pub mod shutdown;
pub mod worker;
