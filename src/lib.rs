//! A small server-rendered blog: post records, body decoding, HTML pages and
//! the per-route decisions that turn store results into responses.

pub mod date;
pub mod codec;
pub mod html;
pub mod post;
pub mod view;
pub mod handlers;
pub mod logging;
