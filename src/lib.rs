pub mod version;
pub mod probe;
pub mod patches;
pub mod steps;
