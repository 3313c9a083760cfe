//! The page in the browser: what a request is answered.
pub mod answer;
pub mod json;
pub mod listing;
pub mod options;
pub mod request;
pub mod token;
