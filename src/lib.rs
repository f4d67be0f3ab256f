//! Safe bindings to the libmagic content-detection library.
//!
//! The native calls themselves need raw pointers; what lies around them is
//! here, verified: the encoding of detection options into the native bit
//! mask, the marshaling of text into and out of null-terminated bytes, and
//! the lifecycle of a native handle, which is released exactly once.
pub mod cookie;
pub mod flags;
pub mod marshal;

pub use cookie::{Cookie, CookieState};
pub use flags::{combine_flags, MagicFlag};
pub use marshal::{c_string, native_text, succeeded};
