//! Text recognition result pipeline: fixed-point coordinate mapping from
//! engine-normalized space to pixel space, result assembly, upload handling
//! rules, response rendering, and HTTP Basic-Auth checking.

pub mod auth;
pub mod classify;
pub mod cli;
pub mod dims;
pub mod geometry;
pub mod ocr;
pub mod render;
pub mod text;
pub mod upload;
