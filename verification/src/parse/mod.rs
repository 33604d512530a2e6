//! Reading requests out of what the interpreter's named patterns matched.
pub mod captures;
pub mod creative;
pub mod platforms;
