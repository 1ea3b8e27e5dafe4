//! Validated NUL-terminated UTF8 strings.
//!
//! A [`NulTerminatedStr`] is a borrowed view over UTF8 text whose final
//! byte is the NUL byte and whose other bytes are not NUL. Such a view
//! can be handed, byte for byte, to interfaces that expect a
//! NUL-terminated buffer, while its text projection behaves like an
//! ordinary string slice without the terminator.

pub mod literal;
pub mod nul;
pub mod terminated_str;

pub use crate::literal::terminate;
pub use crate::terminated_str::NulError;
pub use crate::terminated_str::NulTerminatedStr;
