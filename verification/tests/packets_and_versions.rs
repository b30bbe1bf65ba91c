use sigrok_rs::input_module::InputModule;
use sigrok_rs::packets::{HeaderPacket, LogicPacket};
use sigrok_rs::version::Version;

#[test]
fn header_time_in_microseconds() {
    let h = HeaderPacket::new(1, 3, 250);
    assert_eq!(h.feed_version(), 1);
    assert_eq!(h.time_us(), 3_000_250);
    let h = HeaderPacket::new(2, u32::MAX, u32::MAX);
    assert_eq!(h.time_us(), u32::MAX as u64 * 1_000_000 + u32::MAX as u64);
}

#[test]
fn logic_samples_keep_sixteen_channels() {
    let raw = [0x0E, 0xAA, 0xF6, 0xBB, 0xD2, 0x01];
    let p = LogicPacket::from_samples(&raw, 3, 2);
    assert_eq!(p.get_channel_data(0), vec![false, false, false]);
    assert_eq!(p.get_channel_data(1), vec![true, true, true]);
    assert_eq!(p.get_channel_data(3), vec![true, false, false]);
    assert_eq!(p.get_channel_data(7), vec![false, true, true]);
    assert_eq!(p.get_channel_data(8), vec![false, true, true]);
    assert_eq!(p.get_channel_data(9), vec![true, true, false]);
    assert_eq!(p.get_channel_data(15), vec![true, true, false]);
    let other = LogicPacket::from_samples(&[0x0E, 0x00, 0xF6, 0x00, 0xD2, 0x00], 3, 2);
    assert_ne!(other.get_channel_data(9), p.get_channel_data(9));
    let empty = LogicPacket::from_samples(&[], 0, 4);
    assert!(empty.get_channel_data(0).is_empty());
}

#[test]
fn logic_samples_of_one_byte_and_wider_units() {
    let p = LogicPacket::from_samples(&[0x81, 0x02], 2, 1);
    assert_eq!(p.get_channel_data(0), vec![true, false]);
    assert_eq!(p.get_channel_data(8), vec![false, false]);
    let p = LogicPacket::from_samples(&[0x01, 0x80, 0xFF, 0x00, 0x00, 0xFF], 2, 3);
    assert_eq!(p.get_channel_data(0), vec![true, false]);
    assert_eq!(p.get_channel_data(15), vec![true, false]);
}

#[test]
fn channel_data_reads_one_bit() {
    let p = LogicPacket::new(vec![0x0E, 0xF6, 0xD2]);
    assert_eq!(p.get_channel_data(1), vec![true, true, true]);
    assert_eq!(p.get_channel_data(2), vec![true, true, false]);
    assert_eq!(p.get_channel_data(4), vec![false, true, true]);
}

#[test]
fn render_shows_eight_rows_per_block() {
    let p = LogicPacket::new(vec![0x0101, 0x0080]);
    let expected = "D0 10\nD1 00\nD2 00\nD3 00\nD4 00\nD5 00\nD6 00\nD7 01\n\n";
    assert_eq!(p.render(), expected);
    assert_eq!(LogicPacket::new(Vec::new()).render(), "");
}

#[test]
fn render_splits_at_eighty_samples() {
    let p = LogicPacket::new(vec![0xFFFF; 81]);
    let text = p.render();
    let lines: Vec<&str> = text.split('\n').collect();
    assert_eq!(lines[0], format!("D0 {}", "1".repeat(80)));
    assert_eq!(lines[7], format!("D7 {}", "1".repeat(80)));
    assert_eq!(lines[8], "");
    assert_eq!(lines[9], "D0 1");
    assert_eq!(lines[16], "D7 1");
    assert_eq!(lines[17], "");
    assert_eq!(text.len(), 8 * 84 + 1 + 8 * 5 + 1);
}

#[test]
fn version_text() {
    let v = Version { major: 0, minor: 5, patch: 12 };
    assert_eq!(v.to_text(), "v0.5.12");
    assert_eq!(Version::default().to_text(), "v0.0.0");
}

#[test]
fn input_module_keeps_its_parts() {
    let m = InputModule::new(
        String::from("CSV"),
        String::from("Comma-separated values"),
        String::from("csv"),
        vec![String::from("csv")],
    );
    assert_eq!(m.get_name(), "CSV");
    assert_eq!(m.get_id(), "csv");
    assert_eq!(m.get_description(), "Comma-separated values");
    assert_eq!(m.get_file_extensions().len(), 1);
}
