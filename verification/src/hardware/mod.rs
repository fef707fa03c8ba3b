pub mod cuda;

pub use cuda::{CudaAccelerator, GpuDevice, HardwareAcceleration, HardwareCapabilities};
