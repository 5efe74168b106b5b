pub mod health;
pub mod log_buffer;
pub mod stdout_parser;
