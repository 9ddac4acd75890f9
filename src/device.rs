use vstd::prelude::*;

verus! {

/// Execution backend a model session runs on.
#[derive(Clone, Copy, Debug, PartialEq, Eq, Structural)]
pub enum Device {
    Default,
    Cpu,
    DirectX,
    DirectXHighPerformance,
    DirectXMinPower,
}

/// The runtime's `LearningModelDeviceKind` value for each backend.
pub open spec fn device_code(d: Device) -> i32 {
    match d {
        Device::Default => 0,
        Device::Cpu => 1,
        Device::DirectX => 2,
        Device::DirectXHighPerformance => 3,
        Device::DirectXMinPower => 4,
    }
}

impl Device {
    /// The runtime's device-kind value for this backend.
    pub fn kind_code(self) -> (r: i32)
        ensures
            r == device_code(self),
    {
        match self {
            Device::Default => 0,
            Device::Cpu => 1,
            Device::DirectX => 2,
            Device::DirectXHighPerformance => 3,
            Device::DirectXMinPower => 4,
        }
    }
}

/// Distinct backends map to distinct device kinds.
pub proof fn device_code_injective(a: Device, b: Device)
    ensures
        device_code(a) == device_code(b) <==> a == b,
{
}

} // verus!
