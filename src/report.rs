//! The adapter's report format and its decoder.
use vstd::prelude::*;

verus! {

/// Length of one report as the adapter sends it.
pub const REPORT_LEN: usize = 37;

/// First byte of a controller-state report.
pub const REPORT_TAG: u8 = 0x21;

/// Bytes of one port's record inside a report.
pub const PORT_RECORD_LEN: usize = 9;

/// Number of controller ports on the adapter.
pub const NUM_PORTS: usize = 4;

/// How a port is attached, from the high nibble of its status byte.
#[derive(Clone, Copy, Debug, PartialEq, Eq, Structural)]
pub enum Connection {
    Disconnected,
    Wired,
    Wireless,
}

/// The decoded state of one controller port.
#[derive(Clone, Copy, Debug, PartialEq, Eq, Structural)]
pub struct PortState {
    pub connection: Connection,
    pub a: bool,
    pub b: bool,
    pub x: bool,
    pub y: bool,
    pub start: bool,
    pub l: bool,
    pub r: bool,
    pub z: bool,
    pub up: bool,
    pub down: bool,
    pub left: bool,
    pub right: bool,
    pub stick_x: u8,
    pub stick_y: u8,
    pub substick_x: u8,
    pub substick_y: u8,
    pub trigger_left: u8,
    pub trigger_right: u8,
}

/// The state of all four ports, from one report.
#[derive(Clone, Copy, Debug)]
pub struct InputState {
    pub ports: [PortState; 4],
}

/// A port with nothing attached: every field cleared.
pub open spec fn empty_port() -> PortState {
    PortState {
        connection: Connection::Disconnected,
        a: false,
        b: false,
        x: false,
        y: false,
        start: false,
        l: false,
        r: false,
        z: false,
        up: false,
        down: false,
        left: false,
        right: false,
        stick_x: 0,
        stick_y: 0,
        substick_x: 0,
        substick_y: 0,
        trigger_left: 0,
        trigger_right: 0,
    }
}

/// The connection that a status byte announces in its high nibble.
pub open spec fn connection_of(status: u8) -> Connection {
    if status >> 4u8 == 1 {
        Connection::Wired
    } else if status >> 4u8 == 2 {
        Connection::Wireless
    } else {
        Connection::Disconnected
    }
}

/// Whether `mask` is set in `byte`.
pub open spec fn has_bit(byte: u8, mask: u8) -> bool {
    byte & mask != 0
}

/// The port record made of the nine bytes `rec` (status, two button bytes,
/// main stick x/y, C-stick x/y, left and right trigger).
pub open spec fn port_from_record(rec: Seq<u8>) -> PortState {
    let conn = connection_of(rec[0]);
    if conn == Connection::Disconnected {
        empty_port()
    } else {
        PortState {
            connection: conn,
            a: has_bit(rec[1], 0x01),
            b: has_bit(rec[1], 0x02),
            x: has_bit(rec[1], 0x04),
            y: has_bit(rec[1], 0x08),
            left: has_bit(rec[1], 0x10),
            right: has_bit(rec[1], 0x20),
            down: has_bit(rec[1], 0x40),
            up: has_bit(rec[1], 0x80),
            start: has_bit(rec[2], 0x01),
            z: has_bit(rec[2], 0x02),
            r: has_bit(rec[2], 0x04),
            l: has_bit(rec[2], 0x08),
            stick_x: rec[3],
            stick_y: rec[4],
            substick_x: rec[5],
            substick_y: rec[6],
            trigger_left: rec[7],
            trigger_right: rec[8],
        }
    }
}

/// Whether `raw` is a controller-state report: long enough and tagged.
pub open spec fn is_state_report(raw: Seq<u8>) -> bool {
    raw.len() >= REPORT_LEN && raw[0] == REPORT_TAG
}

/// The state that port `i` has in `raw`.
pub open spec fn port_in_report(raw: Seq<u8>, i: int) -> PortState {
    if is_state_report(raw) {
        let base = 1 + PORT_RECORD_LEN * i;
        port_from_record(raw.subrange(base, base + PORT_RECORD_LEN))
    } else {
        empty_port()
    }
}

/// A port state is consistent: a disconnected port carries no input.
pub open spec fn port_wf(p: PortState) -> bool {
    p.connection == Connection::Disconnected ==> p == empty_port()
}

impl InputState {
    /// Every port is consistent.
    pub open spec fn wf(&self) -> bool {
        forall|i: int| 0 <= i < 4 ==> port_wf(#[trigger] self.ports@[i])
    }

    /// This state is what `raw` decodes to.
    pub open spec fn decodes(&self, raw: Seq<u8>) -> bool {
        forall|i: int| 0 <= i < 4 ==> #[trigger] self.ports@[i] == port_in_report(raw, i)
    }
}

/// A port with nothing attached.
pub fn disconnected_port() -> (p: PortState)
    ensures
        p == empty_port(),
{
    PortState {
        connection: Connection::Disconnected,
        a: false,
        b: false,
        x: false,
        y: false,
        start: false,
        l: false,
        r: false,
        z: false,
        up: false,
        down: false,
        left: false,
        right: false,
        stick_x: 0,
        stick_y: 0,
        substick_x: 0,
        substick_y: 0,
        trigger_left: 0,
        trigger_right: 0,
    }
}

/// The connection announced by a port's status byte.
pub fn decode_connection(status: u8) -> (c: Connection)
    ensures
        c == connection_of(status),
{
    let kind = status >> 4u8;
    if kind == 1 {
        Connection::Wired
    } else if kind == 2 {
        Connection::Wireless
    } else {
        Connection::Disconnected
    }
}

/// Decodes the nine-byte record of one port that starts at `base` in `raw`.
fn decode_port(raw: &[u8], base: usize) -> (p: PortState)
    requires
        base + PORT_RECORD_LEN <= raw@.len(),
    ensures
        p == port_from_record(raw@.subrange(base as int, base + PORT_RECORD_LEN)),
{
    let ghost rec = raw@.subrange(base as int, base + PORT_RECORD_LEN);
    let connection = decode_connection(raw[base]);
    if connection == Connection::Disconnected {
        return disconnected_port();
    }
    let b1 = raw[base + 1];
    let b2 = raw[base + 2];
    let p = PortState {
        connection,
        a: b1 & 0x01 != 0,
        b: b1 & 0x02 != 0,
        x: b1 & 0x04 != 0,
        y: b1 & 0x08 != 0,
        left: b1 & 0x10 != 0,
        right: b1 & 0x20 != 0,
        down: b1 & 0x40 != 0,
        up: b1 & 0x80 != 0,
        start: b2 & 0x01 != 0,
        z: b2 & 0x02 != 0,
        r: b2 & 0x04 != 0,
        l: b2 & 0x08 != 0,
        stick_x: raw[base + 3],
        stick_y: raw[base + 4],
        substick_x: raw[base + 5],
        substick_y: raw[base + 6],
        trigger_left: raw[base + 7],
        trigger_right: raw[base + 8],
    };
    assert(rec[0] == raw@[base as int] && rec[1] == b1 && rec[2] == b2);
    p
}

/// Decodes one report into the state of the four ports. Never fails: a
/// buffer that is too short or does not carry the report tag decodes to four
/// disconnected ports, and so does any port whose status byte announces
/// neither a wired nor a wireless controller.
pub fn decode(raw: &[u8]) -> (s: InputState)
    ensures
        s.decodes(raw@),
        s.wf(),
{
    if raw.len() < REPORT_LEN || raw[0] != REPORT_TAG {
        let e = disconnected_port();
        let s = InputState { ports: [e, e, e, e] };
        assert forall|i: int| 0 <= i < 4 implies #[trigger] s.ports@[i] == port_in_report(raw@, i) by {}
        return s;
    }
    let port0 = decode_port(raw, 1);
    let port1 = decode_port(raw, 10);
    let port2 = decode_port(raw, 19);
    let port3 = decode_port(raw, 28);
    let s = InputState { ports: [port0, port1, port2, port3] };
    assert forall|i: int| 0 <= i < 4 implies #[trigger] s.ports@[i] == port_in_report(raw@, i) by {
        if i == 0 {} else if i == 1 {} else if i == 2 {} else {}
    }
    s
}

impl InputState {
    /// Four disconnected ports.
    pub fn new() -> (s: InputState)
        ensures
            forall|i: int| 0 <= i < 4 ==> #[trigger] s.ports@[i] == empty_port(),
            s.wf(),
    {
        let e = disconnected_port();
        InputState { ports: [e, e, e, e] }
    }

    /// Whether a controller is attached at `port`; false for any index that
    /// names no port.
    pub fn is_connected(&self, port: i32) -> (r: bool)
        ensures
            r == (0 <= port < 4 && self.ports@[port as int].connection != Connection::Disconnected),
    {
        if port < 0 || port >= 4 {
            return false;
        }
        let c = self.ports[port as usize].connection;
        !(c == Connection::Disconnected)
    }

    /// The state of `port`.
    pub fn controller_state(&self, port: usize) -> (p: PortState)
        requires
            port < 4,
        ensures
            p == self.ports@[port as int],
    {
        self.ports[port]
    }
}

} // verus!
