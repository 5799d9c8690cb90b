use spi_transport::interface::SensorInterface;
use spi_transport::sim::{SimBus, SimInputLine, SimOutputLine};
use spi_transport::spi::SpiInterface;
use spi_transport::Error;

fn line() -> SimOutputLine {
    SimOutputLine { levels: Vec::new(), fail: false }
}

#[test]
fn data_ready_high_returns_zero() {
    // The data-ready line reads high: no bus activity, buffer untouched.
    let bus = SimBus::new(vec![vec![0x0A, 0x00, 0x00, 0x00]]);
    let hintn = SimInputLine { reading: Some(false) };
    let mut spi = SpiInterface::new(bus, line(), hintn, line());
    let mut buf = vec![0xABu8; 300];
    let r = spi.read_packet(&mut buf);
    assert_eq!(r.unwrap(), 0);
    assert!(buf.iter().all(|&b| b == 0xAB));
    assert_eq!(spi.spi.replies.len(), 1);
    assert_eq!(spi.cs.levels, Vec::<bool>::new());
    assert_eq!(spi.received_packet_count, 0);
}

#[test]
fn data_ready_error_returns_zero() {
    // A failed poll is advisory: treated as "not available", never an error.
    let bus = SimBus::new(vec![vec![0x0A, 0x00, 0x00, 0x00]]);
    let hintn = SimInputLine { reading: None };
    let mut spi = SpiInterface::new(bus, line(), hintn, line());
    let mut buf = vec![0xABu8; 300];
    let r = spi.read_packet(&mut buf);
    assert_eq!(r.unwrap(), 0);
    assert!(buf.iter().all(|&b| b == 0xAB));
    assert_eq!(spi.spi.replies.len(), 1);
    assert_eq!(spi.cs.levels, Vec::<bool>::new());
    assert_eq!(spi.received_packet_count, 0);
}

#[test]
fn receive_ten_byte_packet() {
    // Header encodes 10: a 4-byte header transfer, then a 6-byte body
    // transfer, one select bracket, counter moves by one.
    let bus = SimBus::new(vec![vec![0x0A, 0x00, 0x00, 0x00], vec![1, 2, 3, 4, 5, 6]]);
    let hintn = SimInputLine { reading: Some(true) };
    let mut spi = SpiInterface::new(bus, line(), hintn, line());
    let mut buf = vec![0xABu8; 300];
    let r = spi.read_packet(&mut buf);
    assert_eq!(r.unwrap(), 10);
    assert_eq!(&buf[..10], &[0x0A, 0x00, 0x00, 0x00, 1, 2, 3, 4, 5, 6]);
    assert!(buf[10..].iter().all(|&b| b == 0));
    assert_eq!(spi.spi.replies.len(), 0);
    assert_eq!(spi.cs.levels, vec![false, true]);
    assert_eq!(spi.received_packet_count, 1);
}

#[test]
fn garbage_header_clamped_to_zero() {
    // An all-ones header decodes to 65535; the sanity check clamps it to 0
    // and no body transfer is attempted: the queued reply stays queued.
    let bus = SimBus::new(vec![vec![0xFF, 0xFF, 0xFF, 0xFF], vec![0; 6]]);
    let hintn = SimInputLine { reading: Some(true) };
    let mut spi = SpiInterface::new(bus, line(), hintn, line());
    let mut buf = vec![0u8; 300];
    let r = spi.read_packet(&mut buf);
    assert_eq!(r.unwrap(), 0);
    assert_eq!(&buf[..4], &[0xFF, 0xFF, 0xFF, 0xFF]);
    assert!(buf[4..].iter().all(|&b| b == 0));
    assert_eq!(spi.spi.replies.len(), 1);
    assert_eq!(spi.cs.levels, vec![false, true]);
    assert_eq!(spi.received_packet_count, 0);
}

#[test]
fn length_just_over_ceiling_clamped() {
    let bus = SimBus::new(vec![vec![0x2D, 0x01, 0x00, 0x00], vec![0; 297]]);
    let hintn = SimInputLine { reading: Some(true) };
    let mut spi = SpiInterface::new(bus, line(), hintn, line());
    let mut buf = vec![0u8; 300];
    let r = spi.read_packet(&mut buf);
    assert_eq!(r.unwrap(), 0);
    assert_eq!(spi.spi.replies.len(), 1);
    assert_eq!(spi.received_packet_count, 0);
}

#[test]
fn length_at_ceiling_accepted() {
    let mut body = vec![7u8; 296];
    let bus = SimBus::new(vec![vec![0x2C, 0x01, 0x00, 0x00], body.clone()]);
    let hintn = SimInputLine { reading: Some(true) };
    let mut spi = SpiInterface::new(bus, line(), hintn, line());
    let mut buf = vec![0u8; 300];
    let r = spi.read_packet(&mut buf);
    assert_eq!(r.unwrap(), 300);
    assert_eq!(&buf[..4], &[0x2C, 0x01, 0x00, 0x00]);
    body.truncate(296);
    assert_eq!(&buf[4..300], &body[..]);
    assert_eq!(spi.received_packet_count, 1);
}

#[test]
fn header_only_packet_counts() {
    // A length of 2 fits inside the header: no body transfer, but the packet
    // is non-empty, so the counter moves.
    let bus = SimBus::new(vec![vec![0x02, 0x00, 0x00, 0x00], vec![0; 6]]);
    let hintn = SimInputLine { reading: Some(true) };
    let mut spi = SpiInterface::new(bus, line(), hintn, line());
    let mut buf = vec![0u8; 300];
    let r = spi.read_packet(&mut buf);
    assert_eq!(r.unwrap(), 2);
    assert_eq!(spi.spi.replies.len(), 1);
    assert_eq!(spi.received_packet_count, 1);
}

#[test]
fn counter_counts_only_nonempty_receives() {
    let bus = SimBus::new(vec![
        vec![0x0A, 0x00, 0x00, 0x00],
        vec![1, 2, 3, 4, 5, 6],
        vec![0x00, 0x00, 0x00, 0x00],
        vec![0x05, 0x00, 0x00, 0x00],
        vec![9],
    ]);
    let hintn = SimInputLine { reading: Some(true) };
    let mut spi = SpiInterface::new(bus, line(), hintn, line());
    let mut buf = vec![0u8; 300];
    assert_eq!(spi.read_packet(&mut buf).unwrap(), 10);
    assert_eq!(spi.received_packet_count, 1);
    assert_eq!(spi.read_packet(&mut buf).unwrap(), 0);
    assert_eq!(spi.received_packet_count, 1);
    assert_eq!(spi.read_packet(&mut buf).unwrap(), 5);
    assert_eq!(spi.received_packet_count, 2);
}

#[test]
fn select_failure_is_pin_error() {
    let bus = SimBus::new(vec![vec![0x0A, 0x00, 0x00, 0x00]]);
    let cs = SimOutputLine { levels: Vec::new(), fail: true };
    let hintn = SimInputLine { reading: Some(true) };
    let mut spi = SpiInterface::new(bus, cs, hintn, line());
    let mut buf = vec![0xABu8; 300];
    let r = spi.read_packet(&mut buf);
    assert!(matches!(r, Err(Error::Pin(_))));
    assert!(buf.iter().all(|&b| b == 0xAB));
    assert_eq!(spi.spi.replies.len(), 1);
    assert_eq!(spi.received_packet_count, 0);
}

#[test]
fn header_transfer_failure_is_comm_error() {
    let mut bus = SimBus::new(vec![]);
    bus.fail_transfers = true;
    let hintn = SimInputLine { reading: Some(true) };
    let mut spi = SpiInterface::new(bus, line(), hintn, line());
    let mut buf = vec![0xABu8; 300];
    let r = spi.read_packet(&mut buf);
    assert!(matches!(r, Err(Error::Comm(_))));
    // The buffer was already zeroed for dummy output, and select stays low.
    assert!(buf.iter().all(|&b| b == 0));
    assert_eq!(spi.cs.levels, vec![false]);
    assert_eq!(spi.received_packet_count, 0);
}

#[test]
fn body_transfer_failure_is_comm_error() {
    // Header promises 10 bytes but no body reply is queued: the body
    // transfer fails, the counter does not move, select stays low.
    let bus = SimBus::new(vec![vec![0x0A, 0x00, 0x00, 0x00]]);
    let hintn = SimInputLine { reading: Some(true) };
    let mut spi = SpiInterface::new(bus, line(), hintn, line());
    let mut buf = vec![0u8; 300];
    let r = spi.read_packet(&mut buf);
    assert!(matches!(r, Err(Error::Comm(_))));
    assert_eq!(&buf[..4], &[0x0A, 0x00, 0x00, 0x00]);
    assert!(buf[4..].iter().all(|&b| b == 0));
    assert_eq!(spi.cs.levels, vec![false]);
    assert_eq!(spi.received_packet_count, 0);
}
