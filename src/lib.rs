//! Core of a desktop YouTube downloader: link validation, dependency
//! acquisition decisions, the download pipeline and the controller that
//! sequences them. The parts that touch the network, the file system or child
//! processes are described here as actions; the caller performs them and hands
//! the outcome back.

pub mod classes;
pub mod components;
pub mod config;
pub mod controller;
pub mod download;
pub mod fetch_deps;
pub mod parse_url;
pub mod text;
pub mod types;
