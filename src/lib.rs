//! A counting character device: every control request on an open instance
//! hands back the instance's counter and advances it by one.

pub mod device;
pub mod error;
pub mod lifecycle;
pub mod registry;
pub mod user_buffer;

pub use device::{DeviceInstance, RESPOND};
pub use error::ErrorKind;
pub use lifecycle::{on_load, on_unload, ModuleState, DEVICE_NAME};
pub use registry::{Registration, Registry};
pub use user_buffer::UserBuffer;
