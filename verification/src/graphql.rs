pub mod guards;
