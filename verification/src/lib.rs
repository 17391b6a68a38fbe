//! A counter service: one shared integer, five parameterless operations on
//! it, and the textual reply each of them gives.

pub mod decimal;
pub mod history;
pub mod operation;
pub mod reply;
pub mod service;

pub use operation::Operation;
pub use service::HelloWorld;
