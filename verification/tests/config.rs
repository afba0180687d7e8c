use remu::config::{DeviceConfig, DeviceConfigError, DevicePlan};

fn plan(text: &str) -> Result<DevicePlan, DeviceConfigError> {
    DeviceConfig::from_str(text).and_then(|config| config.into_device())
}

#[test]
fn devices_by_name() {
    assert_eq!(plan("serial"), Ok(DevicePlan::Serial { base_address: 0x3F8 }));
    assert_eq!(plan("fb"), Ok(DevicePlan::Framebuffer { base_address: 0xF00_0000 }));
    assert_eq!(plan("framebuffer"), Ok(DevicePlan::Framebuffer { base_address: 0xF00_0000 }));
}

#[test]
fn options_are_read() {
    assert_eq!(plan("serial,address=1024"), Ok(DevicePlan::Serial { base_address: 1024 }));
    assert_eq!(
        plan("serial,backend=pty,address=16"),
        Ok(DevicePlan::Serial { base_address: 16 })
    );
    assert_eq!(plan("fb,backend=minifb"), Ok(DevicePlan::Framebuffer { base_address: 0xF00_0000 }));
    // a later value replaces an earlier one
    assert_eq!(plan("fb,address=x,address=8"), Ok(DevicePlan::Framebuffer { base_address: 8 }));
    // the value goes on after the first `=`
    assert_eq!(
        plan("serial,backend=pty=x"),
        Err(DeviceConfigError::InvalidOption("pty=x".to_string()))
    );
}

#[test]
fn each_configuration_error_has_an_input() {
    assert_eq!(plan(""), Err(DeviceConfigError::NameNotFound("".to_string())));
    assert_eq!(
        plan(",address=1"),
        Err(DeviceConfigError::NameNotFound(",address=1".to_string()))
    );
    assert_eq!(
        plan("serial,address"),
        Err(DeviceConfigError::UnparseableOption("address".to_string()))
    );
    assert_eq!(plan("serial,"), Err(DeviceConfigError::UnparseableOption("".to_string())));
    assert_eq!(
        plan("serial,speed=9600"),
        Err(DeviceConfigError::InvalidOption("speed".to_string()))
    );
    assert_eq!(
        plan("serial,backend=tcp"),
        Err(DeviceConfigError::InvalidOption("tcp".to_string()))
    );
    assert_eq!(
        plan("fb,backend=pty"),
        Err(DeviceConfigError::InvalidOption("pty".to_string()))
    );
    assert_eq!(
        plan("printer"),
        Err(DeviceConfigError::InvalidDeviceName("printer".to_string()))
    );
    assert_eq!(
        plan("printer,speed=1"),
        Err(DeviceConfigError::InvalidDeviceName("printer".to_string()))
    );
    assert_eq!(
        plan("serial,address=0x10"),
        Err(DeviceConfigError::NumberParseError("0x10".to_string()))
    );
    assert_eq!(
        plan("serial,address=4294967296"),
        Err(DeviceConfigError::NumberParseError("4294967296".to_string()))
    );
}

#[test]
fn the_first_unknown_option_is_named_and_an_unknown_name_comes_first() {
    assert_eq!(
        plan("serial,speed=1,parity=2"),
        Err(DeviceConfigError::InvalidOption("speed".to_string()))
    );
    assert_eq!(
        plan("fb,address=1,zz=2,backend=x,yy=3"),
        Err(DeviceConfigError::InvalidOption("zz".to_string()))
    );
    assert_eq!(
        plan("uart,address=8"),
        Err(DeviceConfigError::InvalidDeviceName("uart".to_string()))
    );
    assert_eq!(
        plan("Serial,speed=1,backend=x"),
        Err(DeviceConfigError::InvalidDeviceName("Serial".to_string()))
    );
    // a key that is not known comes before an address that is no number
    assert_eq!(
        plan("serial,address=x,speed=1"),
        Err(DeviceConfigError::InvalidOption("speed".to_string()))
    );
    assert_eq!(
        plan("serial,address=x,backend=tcp"),
        Err(DeviceConfigError::NumberParseError("x".to_string()))
    );
}

#[test]
fn configuration_error_messages() {
    assert_eq!(
        DeviceConfigError::NameNotFound("x".to_string()).message(),
        "Empty device name in `x`"
    );
    assert_eq!(
        DeviceConfigError::UnparseableOption("x".to_string()).message(),
        "Unable to parse option: `x`"
    );
    assert_eq!(DeviceConfigError::InvalidOption("x".to_string()).message(), "Invalid option: `x`");
    assert_eq!(
        DeviceConfigError::InvalidDeviceName("x".to_string()).message(),
        "Device name not recognized: `x`"
    );
    assert_eq!(
        DeviceConfigError::NumberParseError("x".to_string()).message(),
        "Failed to parse number: x"
    );
    assert_eq!(DeviceConfigError::Custom("x".to_string()).message(), "x");
}
