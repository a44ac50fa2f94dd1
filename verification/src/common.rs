pub mod constants;
pub mod errors;
pub mod ids;
pub mod settings;
pub mod text;
pub mod validation;
