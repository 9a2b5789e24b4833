//! The operations of the program. Each is decided in full before anything is
//! done: it answers with the effects that the host then applies as one unit,
//! or with the one error that rejects the invocation.

pub mod cancel;
pub mod checkout;
pub mod common;
pub mod dispatch;
pub mod register;
pub mod renew;
pub mod subscribe;
pub mod withdraw;
