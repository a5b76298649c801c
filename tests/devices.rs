use mlx_rust::device::{DeviceError, DeviceType, MLXDevice};
use mlx_rust::context::{
    get_default_device, get_default_stream, set_default_device, set_default_stream,
    ExecutionContext,
};
use mlx_rust::stream::MLXStream;
use mlx_rust::string::MlxString;

fn gpu_context() -> ExecutionContext {
    ExecutionContext::new(MLXDevice::gpu(), MLXStream::new(MLXDevice::gpu(), 0))
}

#[test]
fn test_get_default_device() {
    let ctx = gpu_context();
    let device_type = get_default_device(&ctx).device_type().unwrap();
    assert_eq!(DeviceType::GPU, device_type)
}

#[test]
fn test_set_default_device() {
    let mut ctx = gpu_context();
    let cpu = MLXDevice::cpu();
    set_default_device(&mut ctx, cpu);
    assert_eq!(cpu, get_default_device(&ctx));
    assert_eq!(get_default_stream(&ctx), MLXStream::new(MLXDevice::gpu(), 0));
}

#[test]
fn set_default_stream_keeps_device() {
    let mut ctx = gpu_context();
    let stream = MLXStream::new(MLXDevice::cpu(), 3);
    set_default_stream(&mut ctx, stream);
    assert_eq!(get_default_stream(&ctx), stream);
    assert_eq!(get_default_device(&ctx), MLXDevice::gpu());
    assert_eq!(stream.device(), MLXDevice::cpu());
    assert_eq!(stream.index(), 3);
}

#[test]
fn device_codes_decode() {
    assert_eq!(DeviceType::try_from(0), Ok(DeviceType::CPU));
    assert_eq!(DeviceType::try_from(1), Ok(DeviceType::GPU));
    assert_eq!(DeviceType::try_from(2), Err(DeviceError::UnknowError(2)));
}

#[test]
fn unknown_device_kind_is_an_error() {
    let dev = MLXDevice::from_raw(7, 0);
    assert_eq!(dev.device_type(), Err(DeviceError::UnknowError(7)));
}

#[test]
fn new_device_keeps_kind_and_index() {
    let dev = MLXDevice::new(DeviceType::GPU, 2);
    assert_eq!(dev.device_type(), Ok(DeviceType::GPU));
    assert_eq!(dev.index(), 2);
    assert_eq!(MLXDevice::cpu().device_type(), Ok(DeviceType::CPU));
    assert_eq!(MLXDevice::cpu().index(), 0);
    assert_ne!(MLXDevice::cpu(), MLXDevice::gpu());
}

#[test]
fn test_create_string() {
    let a = MlxString::new("111");
    assert_eq!("111", a.to_string());
    assert_eq!("111", a.as_str());
}
