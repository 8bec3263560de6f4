pub mod clean;
pub mod launch;
pub mod list;
pub mod monitor;
pub mod name;
pub mod stack;
pub mod update;
