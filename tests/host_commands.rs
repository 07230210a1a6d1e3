use gca_input::cache::InputCache;
use gca_input::host::{answer_command, api_compatible, read_controller, ReadCommand};
use gca_input::report::{REPORT_LEN, REPORT_TAG};

#[test]
fn api_versions() {
    assert!(api_compatible(0x020100));
    assert!(api_compatible(0x020105));
    assert!(api_compatible(0x020200));
    assert!(!api_compatible(0x020000));
    assert!(!api_compatible(0x030100));
    assert!(!api_compatible(0x010100));
}

#[test]
fn command_bytes() {
    assert_eq!(ReadCommand::from(0x00), ReadCommand::GetStatus);
    assert_eq!(ReadCommand::from(0x01), ReadCommand::ReadKeys);
    assert_eq!(ReadCommand::from(0xff), ReadCommand::ResetController);
    assert_eq!(ReadCommand::from(0x04), ReadCommand::ReadEepRom);
    assert_eq!(ReadCommand::from(0x05), ReadCommand::WriteEepRom);
    assert_eq!(ReadCommand::from(0x02), ReadCommand::Unrecognized);
}

#[test]
fn status_reply() {
    let mut cmd = vec![1, 3, 0x00, 9, 9, 9, 9, 9];
    answer_command(&mut cmd, 0xdead_beef);
    assert_eq!(cmd, vec![1, 3, 0x00, 0x05, 0x00, 0x02, 9, 9]);
    let mut cmd = vec![1, 3, 0xff, 9, 9, 9, 9];
    answer_command(&mut cmd, 0);
    assert_eq!(cmd, vec![1, 3, 0xff, 0x05, 0x00, 0x02, 9]);
}

#[test]
fn keys_reply_is_little_endian() {
    let mut cmd = vec![1, 4, 0x01, 0, 0, 0, 0, 7];
    answer_command(&mut cmd, 0x1234_5678);
    assert_eq!(cmd, vec![1, 4, 0x01, 0x78, 0x56, 0x34, 0x12, 7]);
}

#[test]
fn eeprom_and_unknown_commands() {
    let mut cmd = vec![1, 3, 0x04, 9, 9, 9, 9];
    answer_command(&mut cmd, 5);
    assert_eq!(cmd, vec![1, 3, 0x04, 9, 9, 9, 9]);
    let mut cmd = vec![1, 3, 0x33, 9, 9, 9, 9];
    answer_command(&mut cmd, 5);
    assert_eq!(cmd, vec![1, 0x83, 0x33, 9, 9, 9, 9]);
}

#[test]
fn read_controller_from_cache() {
    let mut raw = vec![0u8; REPORT_LEN];
    raw[0] = REPORT_TAG;
    raw[1..10].copy_from_slice(&[0x10, 0x01, 0x00, 128, 128, 128, 128, 200, 0]);
    let cache = InputCache::seeded(&raw);
    let mut cmd = vec![1, 4, 0x01, 0, 0, 0, 0];
    read_controller(&cache, 0, &mut cmd);
    assert_eq!(cmd, vec![1, 4, 0x01, 0xa0, 0, 0, 0]);
    let mut cmd = vec![1, 4, 0x01, 0, 0, 0, 0];
    read_controller(&cache, -1, &mut cmd);
    assert_eq!(cmd, vec![1, 4, 0x01, 0, 0, 0, 0]);
}
