pub mod air;
pub mod field;
pub mod interaction;
pub mod recorder;
