use sigrok_rs::config_option::{ConfigOption, GVariantDataType};
use sigrok_rs::device::{open_status, Channel, ChannelGroup, Device, OptionLocation};
use sigrok_rs::driver::Driver;
use sigrok_rs::types::{check_status, SrError};

fn option(key: u32, data_type: GVariantDataType, id: &str, value: &str) -> ConfigOption {
    ConfigOption::new(key, data_type, id.to_string(), id.to_string(), value.to_string(), Vec::new())
}

fn demo_driver() -> Driver {
    Driver::new(1, String::from("demo"), String::from("Demo driver and pattern generator"))
}

/// A device laid out as libsigrok's demo device is: device-wide options,
/// a "Logic" group with channels D0 to D7 and one group per analog channel.
fn demo_device() -> Device {
    let options = vec![
        option(30003, GVariantDataType::Uint64, "samplerate", "200000"),
        option(50001, GVariantDataType::Uint64, "limit_samples", "0"),
        option(50000, GVariantDataType::Uint64, "limit_msec", "0"),
        option(30025, GVariantDataType::Bool, "continuous", ""),
    ];
    let mut logic_channels = Vec::new();
    for i in 0..8 {
        logic_channels.push(Channel::new(100 + i as usize, format!("D{}", i), i, 1, 10000));
    }
    let logic = ChannelGroup::new(
        10,
        String::from("Logic"),
        logic_channels,
        vec![option(30036, GVariantDataType::String, "pattern", "sigrok")],
    );
    let mut groups = vec![logic];
    for a in 0..4 {
        let channel = Channel::new(200 + a as usize, format!("A{}", a), 8 + a, 1, 10001);
        groups.push(ChannelGroup::new(
            20 + a as usize,
            format!("A{}", a),
            vec![channel],
            vec![
                option(30036, GVariantDataType::String, "pattern", "sine"),
                option(30048, GVariantDataType::Float, "amplitude", "10"),
                option(30049, GVariantDataType::Float, "offset", "0"),
            ],
        ));
    }
    Device::new(
        demo_driver(),
        5,
        String::new(),
        String::from("Demo device"),
        String::new(),
        String::new(),
        String::new(),
        options,
        groups,
    )
}

/// Sets an option as the application does: the library prepares the
/// request, libsigrok answers with `status`, and the library records the
/// value once it is accepted.
fn set_option(device: &mut Device, id: &str, value: &str, status: i32) -> Result<(), SrError> {
    let request = device.prepare_option(id, value)?;
    check_status(status)?;
    device.record_option(request.location, value);
    Ok(())
}

fn set_channel_option(
    device: &mut Device,
    group: &str,
    id: &str,
    value: &str,
    status: i32,
) -> Result<(), SrError> {
    let full = Device::channel_option_id(group, id);
    set_option(device, &full, value, status)
}

fn enable_channel(device: &mut Device, id: &str, enable: bool) -> Result<(), SrError> {
    let channel = device.get_channel_mut(id)?;
    channel.set_enabled(enable);
    Ok(())
}

fn set_channel_name(device: &mut Device, old_name: &str, new_name: &str) -> Result<(), SrError> {
    let channel = device.get_channel_mut(old_name)?;
    channel.set_name(new_name);
    Ok(())
}

#[test]
fn test_device_scan() {
    let devices: Vec<Device> = vec![demo_device()];
    assert!(!devices.is_empty());
    let demo_device = devices
        .into_iter()
        .find(|dev| dev.get_model() == "Demo device")
        .expect("Demo device should exist");
    assert!(demo_device.get_driver_name() == "demo");
}

#[test]
fn test_device_from_driver_name() {
    let demo_device = Device::select_by_name(vec![demo_device()], "demo").unwrap();
    assert!(demo_device.get_model() == "Demo device");
}

#[test]
fn test_device_from_model_name() {
    let demo_device = Device::select_by_name(vec![demo_device()], "Demo device").unwrap();
    assert!(demo_device.get_driver_name() == "demo");
}

#[test]
fn test_device_options() -> Result<(), SrError> {
    let mut demo_device = Device::select_by_name(vec![demo_device()], "Demo device")?;
    assert!(!demo_device.get_options().is_empty());

    set_option(&mut demo_device, "limit_samples", "50", 0)?;
    assert!(demo_device.get_option("limit_samples")? == "50");

    let result = set_option(&mut demo_device, "non_existent_option", "100", 0);
    assert!(result.is_err());
    assert!(result.unwrap_err() == SrError::SrOptionNotExist);

    let result = set_option(&mut demo_device, "limit_samples", "not_a_valid_value", 0);
    assert!(result.is_err());
    assert!(result.unwrap_err() == SrError::SrInvalidOptionValue);

    let result = demo_device.get_option("non_existent_option");
    assert!(result.is_err());
    assert!(result.unwrap_err() == SrError::SrOptionNotExist);
    Ok(())
}

#[test]
fn test_device_illegal_options() -> Result<(), SrError> {
    let mut demo_device = Device::select_by_name(vec![demo_device()], "Demo device")?;
    assert!(!demo_device.get_options().is_empty());

    // libsigrok refuses to set "continuous" with an argument error.
    let result = set_option(&mut demo_device, "continuous", "true", -3);
    assert!(result.is_err());
    assert!(result.unwrap_err() == SrError::SrErrArg);
    Ok(())
}

#[test]
fn test_device_channel_enable() -> Result<(), SrError> {
    let mut demo_device = Device::select_by_name(vec![demo_device()], "Demo device")?;

    enable_channel(&mut demo_device, "3", true)?;
    assert!(demo_device.is_channel_enabled("3")?);
    enable_channel(&mut demo_device, "3", false)?;
    assert!(!demo_device.is_channel_enabled("D3")?);
    enable_channel(&mut demo_device, "D3", true)?;
    assert!(demo_device.is_channel_enabled("3")?);

    let result = demo_device.is_channel_enabled("abcdef");
    assert!(result.is_err());
    assert!(result.unwrap_err() == SrError::SrChannelNotFound);
    Ok(())
}

#[test]
fn test_device_channel_change_name() -> Result<(), SrError> {
    let mut demo_device = Device::select_by_name(vec![demo_device()], "Demo device")?;

    set_channel_name(&mut demo_device, "3", "XD")?;
    set_channel_name(&mut demo_device, "D4", "YY")?;
    assert!(demo_device.is_channel_enabled("XD").is_ok());
    assert!(demo_device.is_channel_enabled("YY").is_ok());
    assert!(demo_device.is_channel_enabled("D3").is_err());
    assert!(demo_device.is_channel_enabled("D4").is_err());
    Ok(())
}

#[test]
fn test_device_channel_group_options() -> Result<(), SrError> {
    let mut demo_device = Device::select_by_name(vec![demo_device()], "Demo device")?;

    let result = set_channel_option(&mut demo_device, "xdd", "amplitude", "5", 0);
    assert!(result.is_err());
    assert!(result.unwrap_err() == SrError::SrErrChannelGroup);

    let result = demo_device.get_channel_option("xdd", "amplitude");
    assert!(result.is_err());
    assert!(result.unwrap_err() == SrError::SrErrChannelGroup);

    set_channel_option(&mut demo_device, "A0", "amplitude", "5", 0)?;
    set_channel_option(&mut demo_device, "A0", "offset", "1", 0)?;
    set_channel_option(&mut demo_device, "A0", "pattern", "triangle", 0)?;

    assert!(demo_device.get_channel_option("A0", "amplitude")? == "5");
    assert!(demo_device.get_channel_option("A0", "offset")? == "1");
    assert!(demo_device.get_channel_option("A0", "pattern")? == "triangle");

    // "pattern" has a list of valid values; libsigrok refuses others.
    let result = set_channel_option(&mut demo_device, "A0", "pattern", "invalid_pattern", -3);
    assert!(result.is_err());
    assert!(result.unwrap_err() == SrError::SrErrArg);
    Ok(())
}

#[test]
fn test_device_option_with_list() -> Result<(), SrError> {
    let mut demo_device = Device::select_by_name(vec![demo_device()], "Demo device")?;
    assert!(!demo_device.get_options().is_empty());

    // libsigrok refuses a samplerate of 0 Hz.
    let result = set_option(&mut demo_device, "samplerate", "0", -3);
    assert!(result.is_err());
    assert!(result.unwrap_err() == SrError::SrErrArg);

    set_option(&mut demo_device, "samplerate", "500000000", 0)?;
    assert!(demo_device.get_option("samplerate")? == "500000000");
    Ok(())
}

#[test]
fn test_list_drivers() {
    let drivers: Vec<Driver> = vec![Driver::default(), demo_driver()];
    let demo_driver = drivers
        .into_iter()
        .find(|driver| driver.get_name() == "demo")
        .expect("Demo driver should always be found.");
    assert!(demo_driver.get_name() == "demo");
    assert!(demo_driver.get_long_name() == "Demo driver and pattern generator");
}

#[test]
fn test_session_scan() {
    let devices = vec![demo_device()];
    let device_names = Device::driver_names(&devices);
    let demo = device_names.into_iter().find(|dev| dev == "demo").unwrap();
    let session_device = Device::select_found(devices, &demo).unwrap();
    assert_eq!(session_device.get_model(), "Demo device");
}

#[test]
fn channels_are_found_by_name_or_index() {
    let device = demo_device();
    assert_eq!(device.get_channel("D5").unwrap().get_index(), 5);
    assert_eq!(device.get_channel("9").unwrap().get_name(), "A1");
    assert_eq!(device.locate_channel("A2"), Ok((3, 0)));
    assert_eq!(device.locate_channel("0"), Ok((0, 0)));
    assert!(matches!(device.get_channel("-1"), Err(SrError::SrChannelNotFound)));
    assert_eq!(device.get_channel("A3").unwrap().get_pointer(), 203);
}

#[test]
fn option_lookup_reads_group_and_id() {
    let device = demo_device();
    assert_eq!(device.locate_option("samplerate"), Ok(OptionLocation::Device(0)));
    assert_eq!(device.locate_option("pattern"), Ok(OptionLocation::Group(0, 0)));
    assert_eq!(device.locate_option("A1 offset"), Ok(OptionLocation::Group(2, 2)));
    assert_eq!(device.locate_option("A1  offset"), Err(SrError::SrOptionNotExist));
    assert_eq!(device.locate_option("A1 nothing"), Err(SrError::SrOptionNotExist));
    assert_eq!(device.locate_option("B1 offset"), Err(SrError::SrErrChannelGroup));
    assert_eq!(device.get_option("pattern").unwrap(), "sigrok");
    assert!(device.can_look_up_option("anything"));
    let bare = Device::new(
        demo_driver(),
        0,
        String::new(),
        String::new(),
        String::new(),
        String::new(),
        String::new(),
        Vec::new(),
        Vec::new(),
    );
    assert!(!bare.can_look_up_option("anything"));
    assert!(bare.can_look_up_option("group anything"));
}

#[test]
fn prepared_request_names_key_and_group() {
    let device = demo_device();
    let request = device.prepare_option("A2 amplitude", "2.5").unwrap();
    assert_eq!(request.key, 30048);
    assert_eq!(request.group_handle, Some(22));
    assert_eq!(request.location, OptionLocation::Group(3, 1));
    let request = device.prepare_option("limit_samples", "10").unwrap();
    assert_eq!(request.group_handle, None);
}

#[test]
fn find_and_selection() {
    let device = demo_device();
    assert!(device.find("Demo device"));
    assert!(device.find("Demo driver and pattern generator"));
    assert!(!device.find(""));
    assert!(!device.find("other"));
    assert!(matches!(
        Device::select_by_name(vec![demo_device()], "Demo driver and pattern generator"),
        Err(SrError::SrDeviceNotFound)
    ));
    assert!(Device::select_found(vec![demo_device()], "Demo driver and pattern generator").is_ok());
}

#[test]
fn open_tolerates_an_open_device() {
    assert_eq!(open_status(0), Ok(()));
    assert_eq!(open_status(-1), Ok(()));
    assert_eq!(open_status(-7), Err(SrError::SrErrDevClose));
}

#[test]
fn description_lists_strings_options_and_channels() {
    let logic = ChannelGroup::new(
        1,
        String::from("Logic"),
        vec![Channel::new(2, String::from("D0"), 0, 1, 10000), Channel::new(3, String::from("D1"), 1, 0, 10000)],
        Vec::new(),
    );
    let device = Device::new(
        demo_driver(),
        0,
        String::from("ACME"),
        String::from("Demo device"),
        String::new(),
        String::new(),
        String::new(),
        vec![option(1, GVariantDataType::Uint64, "samplerate", "200000")],
        vec![logic],
    );
    let expected = "Device info:\n  * Vendor: \"ACME\"\n  * Model: \"Demo device\"\n  * Driver: \"demo\"\n  * Device options:\n    - samplerate: \"200000\"\n\n  * Channel group: \"Logic\"\n    |    Name    | Index | Enabled |  Type   |\n    |     D0     |   0   |  true   | Digital |\n    |     D1     |   1   |  false  | Digital |\n";
    assert_eq!(device.describe(), expected);
}
