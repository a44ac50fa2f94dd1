//! Statistics and access-control core of the stat API service: the goal and
//! right tables, permission checks, the answers given to errors, the checks of
//! submitted events, and the decisions of the authentication endpoints.

pub mod common;
pub mod controllers;
pub mod extractors;
pub mod graphql;
pub mod models;
pub mod services;
pub mod views;
