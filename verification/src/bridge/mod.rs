pub mod env_check;
pub mod installer;
