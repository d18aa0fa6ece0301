//! Typed requests and responses for the ScoreSaber leaderboard service.
//!
//! The crate turns a typed route into a request descriptor (URL and ordered
//! query pairs) and turns a JSON response body into typed records. It sends
//! nothing itself: a caller performs the request and hands the body back.
//!
//! Every function carries a contract, and Verus proves it. The exceptions
//! are a few private functions that call into other crates (the JSON
//! parser, the date parser, the form encoder) or into `String::push`: each
//! is marked `external_body`, and its documentation says what is taken on
//! trust.

pub mod model;
pub mod text;
pub mod query;
pub mod wrapper;
pub mod json;
pub mod decode;
pub mod records;
pub mod client;
