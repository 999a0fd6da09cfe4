pub mod errors;
pub mod jwt;
