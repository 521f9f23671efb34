//! The two commands: what each decides and computes between its reads and
//! writes.

pub mod decrypt;
pub mod encrypt;
pub mod validate;

pub use decrypt::execute as decrypt;
pub use encrypt::execute as encrypt;
pub use validate::{accept_password, check_paths, confirm_password};
