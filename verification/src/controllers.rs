pub mod auth;
pub mod events;
pub mod graphql;
