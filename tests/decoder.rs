use gca_input::report::{decode, Connection, InputState, REPORT_LEN, REPORT_TAG};

fn report(records: &[(usize, [u8; 9])]) -> Vec<u8> {
    let mut raw = vec![0u8; REPORT_LEN];
    raw[0] = REPORT_TAG;
    for (port, rec) in records {
        let base = 1 + 9 * port;
        raw[base..base + 9].copy_from_slice(rec);
    }
    raw
}

fn all_disconnected(s: &InputState) -> bool {
    s.ports.iter().all(|p| p.connection == Connection::Disconnected)
}

#[test]
fn all_zero_report_is_all_disconnected() {
    let s = decode(&[0u8; REPORT_LEN]);
    assert_eq!(s.ports.len(), 4);
    assert!(all_disconnected(&s));
}

#[test]
fn all_ff_report_is_all_disconnected() {
    let s = decode(&[0xffu8; REPORT_LEN]);
    assert_eq!(s.ports.len(), 4);
    assert!(all_disconnected(&s));
}

#[test]
fn tagged_report_with_ff_records_is_all_disconnected() {
    let mut raw = vec![0xffu8; REPORT_LEN];
    raw[0] = REPORT_TAG;
    assert!(all_disconnected(&decode(&raw)));
}

#[test]
fn short_and_empty_buffers_decode() {
    assert!(all_disconnected(&decode(&[])));
    assert!(all_disconnected(&decode(&[REPORT_TAG, 0x10, 0x01])));
    let full = report(&[(0, [0x10, 0x01, 0, 128, 128, 128, 128, 0, 0])]);
    assert!(all_disconnected(&decode(&full[..REPORT_LEN - 1])));
}

#[test]
fn every_status_byte_decodes() {
    for status in 0..=255u8 {
        let s = decode(&report(&[(2, [status, 0xff, 0xff, 1, 2, 3, 4, 5, 6])]));
        let expected = match status >> 4 {
            1 => Connection::Wired,
            2 => Connection::Wireless,
            _ => Connection::Disconnected,
        };
        assert_eq!(s.ports[2].connection, expected);
    }
}

#[test]
fn wired_port_fields_at_their_offsets() {
    let s = decode(&report(&[(1, [0x14, 0x01 | 0x20 | 0x80, 0x01 | 0x08, 10, 20, 30, 40, 50, 60])]));
    let p = s.ports[1];
    assert_eq!(p.connection, Connection::Wired);
    assert!(p.a && p.right && p.up && p.start && p.l);
    assert!(!p.b && !p.x && !p.y && !p.left && !p.down && !p.z && !p.r);
    assert_eq!((p.stick_x, p.stick_y, p.substick_x, p.substick_y), (10, 20, 30, 40));
    assert_eq!((p.trigger_left, p.trigger_right), (50, 60));
    assert_eq!(s.ports[0].connection, Connection::Disconnected);
}

#[test]
fn every_button_bit() {
    let s = decode(&report(&[(3, [0x20, 0xff, 0x0f, 0, 0, 0, 0, 0, 0])]));
    let p = s.ports[3];
    assert_eq!(p.connection, Connection::Wireless);
    assert!(p.a && p.b && p.x && p.y && p.left && p.right && p.down && p.up);
    assert!(p.start && p.z && p.r && p.l);
}

#[test]
fn disconnected_port_fields_are_cleared() {
    let s = decode(&report(&[(0, [0x00, 0xff, 0xff, 9, 9, 9, 9, 9, 9])]));
    let p = s.ports[0];
    assert_eq!(p.connection, Connection::Disconnected);
    assert!(!p.a && !p.start);
    assert_eq!((p.stick_x, p.trigger_left), (0, 0));
}

#[test]
fn connection_queries() {
    let s = decode(&report(&[(0, [0x10, 0, 0, 128, 128, 128, 128, 0, 0])]));
    assert!(s.is_connected(0));
    assert!(!s.is_connected(1));
    assert!(!s.is_connected(-1));
    assert!(!s.is_connected(4));
    assert_eq!(s.controller_state(0).stick_x, 128);
    assert!(!InputState::new().is_connected(0));
}
