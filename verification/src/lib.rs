//! A library of the stream application's state, storage rules, fixtures and
//! effect routing, with contracts checked by Verus.

pub mod text;
pub mod models;
pub mod status;
pub mod filter;
pub mod seq_util;
pub mod storage;
pub mod ordering;
pub mod config;
pub mod app;

pub use app::catalog;
