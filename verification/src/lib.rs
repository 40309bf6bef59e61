pub mod aim;
pub mod grid;
pub mod rom;
pub mod vis;
