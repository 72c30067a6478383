//! Input-method indicator core: classifies the keyboard input source,
//! debounces state changes, paces polling by user activity, and computes
//! where and how large the indicator window should be.
pub mod badge;
pub mod geometry;
pub mod ime;
pub mod mock;
pub mod poller;
pub mod presenter;
