pub mod float;
pub mod kill;
pub mod launch;
pub mod tab;
