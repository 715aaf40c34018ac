//! Error values of the ecosystem program, the text that each of them shows,
//! and the small decisions the program makes around them.

pub mod error;
pub mod program;


pub use error::MyError;
pub use program::fail_with_error;
