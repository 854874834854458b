//! The web page backend of a windowing library: browser events in, event handler calls and page
//! commands out.
//!
//! Browser events can fire while the event handler is running. Such events are put in a queue and
//! delivered at the start of the next frame, so that the handler is never entered twice at once.

pub mod clipboard;
pub mod cursor;
pub mod display;
pub mod event;
pub mod frame;
pub mod guarantees;
pub mod handler;
pub mod input;
pub mod laws;
pub mod recorder;
pub mod stage;
pub mod startup;
