pub mod grid;
pub mod session;
