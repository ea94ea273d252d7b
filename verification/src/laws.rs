//! What the operations promise, stated over what goes in and what comes out.
//!
//! Each law takes the result an operation gave, for any arguments at all, and
//! says what that result must be in plain terms: arithmetic on the arguments,
//! the texts they hold, or how two calls relate. A call is spoken of by
//! `call_ensures`, which names the function itself.

pub mod background;
pub mod place;
pub mod privilege;
pub mod queued;
pub mod records;
pub mod schedule;
pub mod screen;
pub mod store;
pub mod window;
pub mod words;
