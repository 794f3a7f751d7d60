//! Client core for a transit timetable web API whose requests are
//! authenticated by an HMAC-SHA1 signature carried in the query string.
pub mod encoding;
pub mod request_url;
pub mod credential;
pub mod dispatch;
pub mod endpoints;
pub mod model;
