pub mod device;
pub mod mapper;

pub use device::ram::{DynMem, RamArray};
pub use device::{Device, Error as DeviceError};
pub use mapper::MemoryMapper;
