pub mod errors;
pub mod memory;
pub mod model;
pub mod vm;
pub mod laws;
