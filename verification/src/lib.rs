//! Narration of a user's public event feed: reading a console line,
//! validating a decoded response and turning each event into sentences.

pub mod decode;
pub mod error;
pub mod event;
pub mod input;
pub mod json;
pub mod request;
pub mod response;
pub mod session;
pub mod text;
