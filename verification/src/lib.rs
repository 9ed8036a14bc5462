//! Statistics on the public repositories of a GitHub user, as a table.
//!
//! A run has three steps. The config file is read: its first line is the
//! user name and its second line the token for the request. One request is
//! sent for the repositories of the target user. The response, a JSON array,
//! is written as a table with one row for each repository. Any failure ends
//! the run.
//!
//! This library holds what is decided and computed in such a run; reading
//! the file, sending the request and writing the lines is left to the
//! program around it.
//!
//! - `config`: the lines of the config file.
//! - `request`: the request that is sent, and the buffer for the response.
//! - `document`: the response as a JSON document.
//! - `records`: the repositories that the document describes.
//! - `table`: the header, the separator and the rows.
//! - `text`: cells of fixed width and decimal numerals.
//! - `failure`: the failures, their diagnostics and the exit status.
//! - `run`: what follows the reading of the file, and what follows the
//!   request.

pub mod text;
pub mod failure;
pub mod config;
pub mod request;
pub mod document;
pub mod records;
pub mod table;
pub mod run;
