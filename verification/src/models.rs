pub mod allowed_payloads;
pub mod events;
pub mod payload_types;
pub mod payloads;
pub mod refresh_tokens;
pub mod users;
