use vstd::prelude::*;

verus! {

/// The kind of compute device the native engine can dispatch to.
#[derive(Debug, Clone, Copy, PartialEq, Eq, Structural)]
pub enum DeviceType {
    CPU,
    GPU,
}

/// A device kind code the engine reported that names no known kind.
#[derive(Debug, Clone, Copy, PartialEq, Eq, Structural)]
pub enum DeviceError {
    UnknowError(u32),
}

/// The engine's numeric code for each device kind.
pub open spec fn device_code(t: DeviceType) -> u32 {
    match t {
        DeviceType::CPU => 0,
        DeviceType::GPU => 1,
    }
}

/// The device kind named by a raw engine code, if any.
pub open spec fn decode_device_type(code: u32) -> Result<DeviceType, DeviceError> {
    if code == 0 {
        Ok(DeviceType::CPU)
    } else if code == 1 {
        Ok(DeviceType::GPU)
    } else {
        Err(DeviceError::UnknowError(code))
    }
}

impl DeviceType {
    /// Decodes the engine's device kind code.
    pub fn try_from(value: u32) -> (r: Result<DeviceType, DeviceError>)
        ensures
            r == decode_device_type(value),
    {
        match value {
            0 => Ok(DeviceType::CPU),
            1 => Ok(DeviceType::GPU),
            _ => Err(DeviceError::UnknowError(value)),
        }
    }
}

/// A compute device: its kind, as the engine's raw code, and its index
/// among the devices of that kind.
#[derive(Debug, Clone, Copy, PartialEq, Eq, Structural)]
pub struct MLXDevice {
    kind: u32,
    index: i32,
}

impl MLXDevice {
    /// The engine's raw kind code.
    pub closed spec fn spec_kind(self) -> u32 {
        self.kind
    }

    /// The index among devices of the same kind.
    pub closed spec fn spec_index(self) -> i32 {
        self.index
    }

    /// The device of the given kind and index.
    pub fn new(device_type: DeviceType, index: i32) -> (r: MLXDevice)
        ensures
            r.spec_kind() == device_code(device_type),
            r.spec_index() == index,
    {
        let kind: u32 = match device_type {
            DeviceType::CPU => 0,
            DeviceType::GPU => 1,
        };
        MLXDevice { kind, index }
    }

    /// The first GPU.
    pub fn gpu() -> (r: MLXDevice)
        ensures
            r.spec_kind() == device_code(DeviceType::GPU),
            r.spec_index() == 0,
    {
        Self::new(DeviceType::GPU, 0)
    }

    /// The first CPU.
    pub fn cpu() -> (r: MLXDevice)
        ensures
            r.spec_kind() == device_code(DeviceType::CPU),
            r.spec_index() == 0,
    {
        Self::new(DeviceType::CPU, 0)
    }

    /// A device as the engine describes it, by raw kind code and index.
    pub fn from_raw(kind: u32, index: i32) -> (r: MLXDevice)
        ensures
            r.spec_kind() == kind,
            r.spec_index() == index,
    {
        MLXDevice { kind, index }
    }

    /// The device's kind, or the error naming a code no kind has.
    pub fn device_type(&self) -> (r: Result<DeviceType, DeviceError>)
        ensures
            r == decode_device_type(self.spec_kind()),
    {
        DeviceType::try_from(self.kind)
    }

    /// The index among devices of the same kind.
    pub fn index(&self) -> (r: i32)
        ensures
            r == self.spec_index(),
    {
        self.index
    }
}

/// A device built from a kind reports that kind back.
pub proof fn lemma_device_kind_round_trip(t: DeviceType)
    ensures
        decode_device_type(device_code(t)) == Ok::<DeviceType, DeviceError>(t),
{
}

} // verus!
