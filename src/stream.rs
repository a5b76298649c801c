use vstd::prelude::*;
use crate::device::MLXDevice;

verus! {

/// A queue of work on one device; operations run in the order they were put
/// on a stream.
#[derive(Debug, Clone, Copy, PartialEq, Eq, Structural)]
pub struct MLXStream {
    device: MLXDevice,
    index: i32,
}

impl MLXStream {
    /// The device the stream runs on.
    pub closed spec fn spec_device(self) -> MLXDevice {
        self.device
    }

    /// The stream's index.
    pub closed spec fn spec_index(self) -> i32 {
        self.index
    }

    /// The stream with the given index on `dev`.
    pub fn new(dev: MLXDevice, index: i32) -> (r: MLXStream)
        ensures
            r.spec_device() == dev,
            r.spec_index() == index,
    {
        MLXStream { device: dev, index }
    }

    /// The device the stream runs on.
    pub fn device(&self) -> (r: MLXDevice)
        ensures
            r == self.spec_device(),
    {
        self.device
    }

    /// The stream's index.
    pub fn index(&self) -> (r: i32)
        ensures
            r == self.spec_index(),
    {
        self.index
    }
}

} // verus!
