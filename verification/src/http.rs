//! The request line that is read and the status line that answers it.

pub mod request;
pub mod response;

pub use request::{RequestLine, RequestMessage};
pub use response::{Message, ResponseMessage, Status};
