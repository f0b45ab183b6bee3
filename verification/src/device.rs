//! Where tensors live.

use vstd::prelude::*;
use crate::error::Error;

verus! {

/// The device on which tensors are held and computed with.
#[derive(Debug, Clone, Copy, PartialEq, Eq, Structural)]
pub enum Device {
    Cpu,
    Gpu,
}

impl Device {
    /// The device that a run uses: the GPU where it is asked for and there,
    /// the CPU where it is not asked for, and none where it is asked for and
    /// not there.
    pub open spec fn chosen(use_gpu: bool, gpu_available: bool) -> Option<Device> {
        if !use_gpu {
            Some(Device::Cpu)
        } else if gpu_available {
            Some(Device::Gpu)
        } else {
            None
        }
    }

    /// Picks the device for a run, or fails with `DeviceError`.
    pub fn select(use_gpu: bool, gpu_available: bool) -> (r: Result<Device, Error>)
        ensures
            r == (match Self::chosen(use_gpu, gpu_available) {
                Some(device) => Ok::<Device, Error>(device),
                None => Err::<Device, Error>(Error::DeviceError),
            }),
    {
        if !use_gpu {
            Ok(Device::Cpu)
        } else if gpu_available {
            Ok(Device::Gpu)
        } else {
            Err(Error::DeviceError)
        }
    }
}

} // verus!
