pub mod store;
pub mod renderer;
pub mod json_text;
