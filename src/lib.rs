//! Safe handling of C stdio file streams: the decisions that surround each
//! native call (argument checks, translation of return codes and `errno`
//! into [`Error`], buffer growth for whole-file reads, and the open/closed
//! lifecycle of a stream) stated and proved.

pub mod buffer;
pub mod error;
pub mod read_to_end;
pub mod stream;

pub use buffer::buffer;
pub use error::Error;
