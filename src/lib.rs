//! Probing a roster of team domains over HTTP and HTTPS, classifying what came
//! back, and keeping the latest results in a cache with freshness rules.

pub mod cache;
pub mod render;
pub mod status;
pub mod teams;
pub mod text;
