use sigrok_rs::config_option::{
    bool_from_lowercase, ConfigOption, GVariantDataType, MeasuredQuantity, MeasuredQuantityFlag,
    OptionValue, CONF_GET, CONF_LIST,
};
use sigrok_rs::types::SrError;
use sigrok_rs::utils::{keyed_values_text, measured_quantity_text, read_plan, value_text, GValue, ReadPlan};

fn option(data_type: GVariantDataType) -> ConfigOption {
    ConfigOption::new(
        1,
        data_type,
        String::from("opt"),
        String::from("Option"),
        String::new(),
        Vec::new(),
    )
}

#[test]
fn data_type_codes() {
    assert_eq!(GVariantDataType::try_from(10000), Ok(GVariantDataType::Uint64));
    assert_eq!(GVariantDataType::try_from(10002), Ok(GVariantDataType::Bool));
    assert_eq!(GVariantDataType::try_from(10010), Ok(GVariantDataType::MQ));
    assert_eq!(GVariantDataType::try_from(10011), Err(SrError::SrErrNA));
    assert_eq!(GVariantDataType::try_from(9999), Err(SrError::SrErrNA));
    assert_eq!(GVariantDataType::Int32.code(), 10009);
    assert!(GVariantDataType::String.settable());
    assert!(!GVariantDataType::KeyValue.settable());
}

#[test]
fn measured_quantities_and_flags() {
    assert_eq!(MeasuredQuantity::try_from(10000), Ok(MeasuredQuantity::Voltage));
    assert_eq!(MeasuredQuantity::try_from(10032), Ok(MeasuredQuantity::HarmonicRatio));
    assert_eq!(MeasuredQuantity::try_from(10033), Err(SrError::SrErrNA));
    assert_eq!(MeasuredQuantity::DutyCycle.as_str(), "Duty cycle");
    assert_eq!(MeasuredQuantity::SoundPressureLevel.as_str(), "Sound pressure level");
    assert_eq!(MeasuredQuantity::Mass.code(), 10031);
    assert_eq!(MeasuredQuantityFlag::try_from(0x01), Ok(MeasuredQuantityFlag::Ac));
    assert_eq!(MeasuredQuantityFlag::try_from(0x200000), Ok(MeasuredQuantityFlag::FourWire));
    assert_eq!(MeasuredQuantityFlag::try_from(0x03), Err(SrError::SrErrNA));
    assert_eq!(MeasuredQuantityFlag::Avg.as_str(), "Average");
    assert_eq!(MeasuredQuantityFlag::SplLat.as_str(), "SPL LAT");
    assert_eq!(MeasuredQuantityFlag::Duration.code(), 0x20000);
}

#[test]
fn quantity_text_joins_names() {
    assert_eq!(measured_quantity_text(10000, 0x02), Ok(String::from("Voltage, DC")));
    assert_eq!(measured_quantity_text(10015, 0x20000), Ok(String::from("Time, Duration")));
    assert_eq!(measured_quantity_text(1, 0x02), Err(SrError::SrErrNA));
    assert_eq!(measured_quantity_text(10000, 0x06), Err(SrError::SrErrNA));
}

#[test]
fn keyed_values_lists_numbers() {
    assert_eq!(keyed_values_text("samplerates", &vec![1, 20, 300]), "samplerates, 1, 20, 300");
    assert_eq!(keyed_values_text("k", &Vec::new()), "k");
}

#[test]
fn truth_words() {
    for w in ["true", "1", "on", "ok", "t"] {
        assert_eq!(bool_from_lowercase(w), Some(true));
    }
    for w in ["false", "0", "off", "f"] {
        assert_eq!(bool_from_lowercase(w), Some(false));
    }
    assert_eq!(bool_from_lowercase("yes"), None);
    assert_eq!(bool_from_lowercase("TRUE"), None);
}

#[test]
fn parse_value_by_data_type() {
    assert!(matches!(option(GVariantDataType::Bool).parse_value("TRUE"), Ok(OptionValue::Bool(true))));
    assert!(matches!(option(GVariantDataType::Bool).parse_value("Off"), Ok(OptionValue::Bool(false))));
    assert!(matches!(
        option(GVariantDataType::Bool).parse_value("maybe"),
        Err(SrError::SrInvalidOptionValue)
    ));
    assert!(matches!(option(GVariantDataType::Int32).parse_value("-12"), Ok(OptionValue::Int32(-12))));
    assert!(matches!(
        option(GVariantDataType::Int32).parse_value("3000000000"),
        Err(SrError::SrInvalidOptionValue)
    ));
    assert!(matches!(option(GVariantDataType::Uint64).parse_value("50"), Ok(OptionValue::Uint64(50))));
    assert!(matches!(
        option(GVariantDataType::Uint64Range).parse_value("-5"),
        Err(SrError::SrInvalidOptionValue)
    ));
    match option(GVariantDataType::Float).parse_value("1.5") {
        Ok(OptionValue::Double(t)) => assert_eq!(t, "1.5"),
        _ => panic!("expected the text of a double"),
    }
    match option(GVariantDataType::String).parse_value("triangle") {
        Ok(OptionValue::Text(t)) => assert_eq!(t, "triangle"),
        _ => panic!("expected a string"),
    }
}

#[test]
fn scanned_value_follows_capabilities() {
    let possible = vec![String::from("a"), String::from("b"), String::from("c")];
    let o = ConfigOption::from_capabilities(
        7,
        GVariantDataType::String,
        String::from("pattern"),
        String::from("Pattern"),
        CONF_GET | CONF_LIST,
        Some(String::from("b")),
        possible.clone(),
    );
    assert_eq!(o.value, "b");
    assert_eq!(o.key(), 7);
    assert_eq!(o.data_type(), GVariantDataType::String);
    let o = ConfigOption::from_capabilities(
        7,
        GVariantDataType::String,
        String::from("pattern"),
        String::from("Pattern"),
        CONF_LIST,
        None,
        possible.clone(),
    );
    assert_eq!(o.value, "a b c");
    let o = ConfigOption::from_capabilities(
        7,
        GVariantDataType::String,
        String::from("pattern"),
        String::from("Pattern"),
        0x4000_0000,
        None,
        possible,
    );
    assert_eq!(o.value, "");
    assert_eq!(o.possible_values.len(), 3);
}

#[test]
fn set_value_replaces_value() {
    let mut o = option(GVariantDataType::Uint64);
    o.set_value("100");
    assert_eq!(o.get_value(), "100");
    assert_eq!(o.get_id(), "opt");
}

#[test]
fn read_plan_follows_type_and_shape() {
    assert_eq!(read_plan(GVariantDataType::Bool, "b"), ReadPlan::Boolean);
    assert_eq!(read_plan(GVariantDataType::Float, "d"), ReadPlan::Double);
    assert_eq!(read_plan(GVariantDataType::Int32, "i"), ReadPlan::Int32);
    assert_eq!(read_plan(GVariantDataType::MQ, "(ut)"), ReadPlan::Quantity);
    assert_eq!(read_plan(GVariantDataType::String, "s"), ReadPlan::Text);
    assert_eq!(read_plan(GVariantDataType::Uint64, "t"), ReadPlan::Uint64);
    assert_eq!(read_plan(GVariantDataType::Uint64, "{sv}"), ReadPlan::KeyedUint64s);
    assert_eq!(read_plan(GVariantDataType::Uint64, "at"), ReadPlan::Nothing);
    assert!(GVariantDataType::Uint64.readable());
    assert!(!GVariantDataType::DoubleRange.readable());
}

#[test]
fn value_text_writes_values() {
    assert_eq!(value_text(&GValue::Boolean(1)), Ok(String::from("1")));
    assert_eq!(value_text(&GValue::Boolean(0)), Ok(String::from("0")));
    assert_eq!(value_text(&GValue::Int32(-7)), Ok(String::from("-7")));
    assert_eq!(value_text(&GValue::Uint64(200000)), Ok(String::from("200000")));
    assert_eq!(value_text(&GValue::Double(String::from("2.5"))), Ok(String::from("2.5")));
    assert_eq!(
        value_text(&GValue::KeyedUint64s(String::from("samplerates"), vec![1, 2])),
        Ok(String::from("samplerates, 1, 2"))
    );
    assert_eq!(value_text(&GValue::Quantity(10000, 0x01)), Ok(String::from("Voltage, AC")));
    assert_eq!(value_text(&GValue::Quantity(42, 0x01)), Err(SrError::SrErrNA));
    assert_eq!(value_text(&GValue::Text(String::from("sine"))), Ok(String::from("sine")));
    assert_eq!(value_text(&GValue::Nothing), Ok(String::new()));
}

#[test]
fn names_are_distinct_and_non_empty() {
    let mut quantities = Vec::new();
    for code in 10000..=10032 {
        let q = MeasuredQuantity::try_from(code).unwrap();
        assert!(!q.as_str().is_empty());
        assert!(!quantities.contains(&q.as_str()));
        quantities.push(q.as_str());
    }
    let mut flags = Vec::new();
    for bit in 0..22 {
        let f = MeasuredQuantityFlag::try_from(1u64 << bit).unwrap();
        assert!(!f.as_str().is_empty());
        assert!(!flags.contains(&f.as_str()));
        flags.push(f.as_str());
    }
}
