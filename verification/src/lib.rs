//! The decision logic of an admin panel for PostgreSQL-backed Rust
//! projects: list pages, forms, sign-in and recovery flows, audit,
//! the model derive's planning, and the command line's rules.
use vstd::prelude::*;

pub mod text;
pub mod audit;
pub mod auth;
pub mod error;
pub mod builtin;
pub mod bulk;
pub mod cli;
pub mod crud;
pub mod csv;
pub mod dashboard;
pub mod db_browser;
pub mod docs;
pub mod feature_flags;
pub mod filter_query;
pub mod filters;
pub mod fk_cells;
pub mod handlers;
pub mod health;
pub mod history_views;
pub mod icons;
pub mod inlines;
pub mod json_api;
pub mod json_response;
pub mod login;
pub mod mfa;
pub mod model_plan;
pub mod modeladmin;
pub mod naming;
pub mod notifications;
pub mod openapi;
pub mod api_doc;
pub mod ops;
pub mod paging;
pub mod password_forms;
pub mod recovery;
pub mod user_actions;
pub mod user_admin;
pub mod user_view;

verus! {
} // verus!
