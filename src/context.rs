use vstd::prelude::*;
use crate::device::MLXDevice;
use crate::stream::MLXStream;

verus! {

/// The default device and stream that operations run on when given none.
///
/// The process keeps one such value behind a lock; it is read by copying it
/// out and changed by replacing a part whole, never by editing in place.
#[derive(Debug, Clone, Copy, PartialEq, Eq, Structural)]
pub struct ExecutionContext {
    device: MLXDevice,
    stream: MLXStream,
}

impl ExecutionContext {
    /// The default device.
    pub closed spec fn spec_device(self) -> MLXDevice {
        self.device
    }

    /// The default stream.
    pub closed spec fn spec_stream(self) -> MLXStream {
        self.stream
    }

    /// A context with the given defaults.
    pub fn new(device: MLXDevice, stream: MLXStream) -> (r: ExecutionContext)
        ensures
            r.spec_device() == device,
            r.spec_stream() == stream,
    {
        ExecutionContext { device, stream }
    }
}

/// The default device.
pub fn get_default_device(ctx: &ExecutionContext) -> (r: MLXDevice)
    ensures
        r == ctx.spec_device(),
{
    ctx.device
}

/// Replaces the default device; the default stream stays as it was.
pub fn set_default_device(ctx: &mut ExecutionContext, device: MLXDevice)
    ensures
        final(ctx).spec_device() == device,
        final(ctx).spec_stream() == old(ctx).spec_stream(),
{
    ctx.device = device;
}

/// The default stream.
pub fn get_default_stream(ctx: &ExecutionContext) -> (r: MLXStream)
    ensures
        r == ctx.spec_stream(),
{
    ctx.stream
}

/// Replaces the default stream; the default device stays as it was.
pub fn set_default_stream(ctx: &mut ExecutionContext, stream: MLXStream)
    ensures
        final(ctx).spec_stream() == stream,
        final(ctx).spec_device() == old(ctx).spec_device(),
{
    ctx.stream = stream;
}

} // verus!
