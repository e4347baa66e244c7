pub mod boot;
pub mod cpu;
pub mod memory;
pub mod util;
