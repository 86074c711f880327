use vstd::prelude::*;

pub mod access;
pub mod admin;
pub mod auth;
pub mod cookie;
pub mod dashboard;
pub mod datetime;
pub mod dto;
pub mod error;
pub mod export;
pub mod filters;
pub mod group_config;
pub mod import;
pub mod import_laws;
pub mod model;
pub mod paging;
pub mod row;
pub mod sheet;
pub mod text;
pub mod xlsx;

verus! {
}
