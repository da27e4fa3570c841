//! A minimal responder for HTTP health checks: it takes the first line of a
//! request, classifies it against a small fixed rule set and answers with a
//! canned status line.

pub mod bytes;
pub mod extract;
pub mod handler;
pub mod http;
pub mod limits;

pub use extract::{Extraction, LineExtractor, ReadOutcome};
pub use handler::{respond, Closing, Deciding, WriteOutcome, Writing};
pub use http::{Message, RequestLine, RequestMessage, ResponseMessage, Status};
