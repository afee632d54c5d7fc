pub mod listener;
pub mod tokens;
pub mod wire;
