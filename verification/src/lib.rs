//! Window discovery, capture-target selection and frame bookkeeping for
//! Windows screen capture, with the decisions proved against their contracts.
//!
//! Every call into the operating system happens outside this crate; the
//! functions here receive what the system reported and decide what follows.
pub mod graphics_capture_picker;
pub mod monitor;
pub mod native;
pub mod text;
pub mod win32;
pub mod window;

pub use win32::Utf16Error;
