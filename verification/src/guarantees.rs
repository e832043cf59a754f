pub mod native;
pub mod token;
