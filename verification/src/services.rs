pub mod permissions;
pub mod user_agent;
