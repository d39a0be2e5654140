//! A small verified content pipeline for a file-backed blog: rows read from a
//! relational store are mapped to typed posts, a requested slug is resolved to
//! a post, and pages are rendered as HTML. The store itself, the HTTP server
//! and the clock stay outside; this crate holds the logic between them.

pub mod datetime;
pub mod post;
pub mod row;
pub mod repo;
pub mod resolve;
pub mod render;
pub mod pages;
pub mod ingest;
