pub mod refresh_jwt;
