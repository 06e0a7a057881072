//! A verified core for a NetEase Cloud Music API client: request planning,
//! response-code checks, pagination, client configuration, and text helpers.

pub mod builder;
pub mod codes;
pub mod error;
pub mod outside;
pub mod playlist;
pub mod request;
pub mod text;
