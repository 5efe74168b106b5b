pub mod manager;
pub mod launch;
pub mod port_check;
pub mod platform;
