//! Client side of a password rotation that never shows the server a password.
//!
//! The form model decides whether a submission may start at all, the slot owns
//! the one cryptographic context that may be pending, and the component turns
//! each event into the next thing to do. The caller performs what is asked
//! (a cryptographic step, a request to the backend) and reports back.
pub mod form;
pub mod slot;
pub mod protocol;
pub mod machine;
pub mod laws;
