use esp_ieee802154::frame::Frame;
use esp_ieee802154::raw::Ieee802154State;
use esp_ieee802154::{Config, Error, Ieee802154};
use ieee802154::mac::{Address, FrameContent, FrameType, FrameVersion, Header, PanId, ShortAddress};

const RX_DONE: u16 = 0x0002;

fn data_frame_to(pan: u16, addr: u16, payload: &[u8]) -> Frame {
    Frame {
        header: Header {
            frame_type: FrameType::Data,
            frame_pending: false,
            ack_request: false,
            pan_id_compress: false,
            seq_no_suppress: false,
            ie_present: false,
            version: FrameVersion::Ieee802154_2006,
            seq: 0,
            destination: Some(Address::Short(PanId(pan), ShortAddress(addr))),
            source: None,
            auxiliary_security_header: None,
        },
        content: FrameContent::Data,
        payload: payload.to_vec(),
        footer: [0, 0],
    }
}

#[test]
fn transmit_writes_length_prefix_and_issues_tx_start() {
    let mut drv = Ieee802154::new();
    drv.set_config(Config {
        channel: 15,
        pan_id: Some(0x4242),
        short_addr: Some(0x2222),
        ..Config::default()
    });

    let frame = data_frame_to(0x4242, 0x2323, b"Hello World");
    drv.transmit(&frame).expect("transmit");

    // frame control (2) + sequence (1) + destination PAN and address (4)
    // + payload (11) + footer (2)
    assert_eq!(drv.transmit_buffer[0], 20);
    // the payload sits after the 7 header bytes
    assert_eq!(&drv.transmit_buffer[8..19], b"Hello World");
    // exactly one TxStart, no CCA
    assert_eq!(drv.regs.commands, vec![0x41]);
    assert_eq!(drv.state, Ieee802154State::Transmit);
    // the configuration reached hardware before the command
    assert_eq!(drv.regs.freq, 23);
    assert_eq!(drv.regs.inf_pan_id[0], 0x4242);
    assert_eq!(drv.regs.inf_short_addr[0], 0x2222);
    assert!(drv.regs.txdma_armed);
    assert!(drv.regs.rxdma_armed);
    assert!(!drv.regs.sec_en);
}

#[test]
fn truncated_header_yields_incomplete() {
    let mut drv = Ieee802154::new();
    // frame control announcing short destination and source addressing
    // needs an 11-byte header; only 10 frame bytes are present
    let bytes: [u8; 10] = [0x01, 0x98, 0x00, 0x42, 0x42, 0x23, 0x23, 0x42, 0x42, 0x22];
    drv.rx_buffer[0] = 10;
    drv.rx_buffer[1..11].copy_from_slice(&bytes);
    drv.regs.event_status = RX_DONE;
    drv.interrupt();

    match drv.get_received() {
        Some(Err(Error::Incomplete)) => {},
        other => panic!("expected Some(Err(Incomplete)), got {:?}", other),
    }
}

#[test]
fn length_byte_beyond_buffer_yields_incomplete() {
    let mut drv = Ieee802154::new();
    drv.rx_buffer[0] = 200;
    drv.regs.event_status = RX_DONE;
    drv.interrupt();
    match drv.get_received() {
        Some(Err(Error::Incomplete)) => {},
        other => panic!("expected Some(Err(Incomplete)), got {:?}", other),
    }
}

#[test]
fn empty_queue_polls_none() {
    let mut drv = Ieee802154::new();
    assert!(drv.get_received().is_none());
    assert!(drv.get_raw_received().is_none());
}

#[test]
fn transmit_then_receive_round_trip() {
    let mut drv = Ieee802154::new();
    drv.set_config(Config {
        channel: 15,
        ..Config::default()
    });
    let frame = data_frame_to(0x4242, 0x2323, b"Hello World");
    drv.transmit(&frame).expect("transmit");

    // feed the serialized buffer back as if hardware had received it
    let buffer = drv.transmit_buffer;
    drv.rx_buffer.copy_from_slice(&buffer);
    drv.regs.event_status = RX_DONE;
    drv.interrupt();

    let received = drv
        .get_received()
        .expect("one queued frame")
        .expect("well-formed frame");
    assert_eq!(received.frame.payload, b"Hello World".to_vec());
    assert_eq!(received.frame.header.frame_type, FrameType::Data);
    assert_eq!(
        received.frame.header.destination,
        Some(Address::Short(PanId(0x4242), ShortAddress(0x2323)))
    );
    assert_eq!(received.channel, 15);
    // the footer slot hardware would overwrite reads 0 here: a strong RSSI
    assert_eq!(received.rssi, 0);
    assert_eq!(received.lqi, 255);
}

#[test]
fn try_transmit_rejects_oversized_payload() {
    let mut drv = Ieee802154::new();
    let oversized = data_frame_to(0x4242, 0x2323, &[0u8; 130]);
    assert!(drv.try_transmit(&oversized).is_none());
    // nothing was issued
    assert!(drv.regs.commands.is_empty());
    assert_eq!(drv.state, Ieee802154State::Idle);

    let fitting = data_frame_to(0x4242, 0x2323, b"ping");
    assert_eq!(drv.try_transmit(&fitting), Some(Ok(())));
    assert_eq!(drv.regs.commands, vec![0x41]);
    assert_eq!(drv.state, Ieee802154State::Transmit);
}

#[test]
fn malformed_content_yields_bad_input() {
    let mut drv = Ieee802154::new();
    // a frame control word with an invalid frame type (0b100)
    let bytes: [u8; 5] = [0x04, 0x00, 0x00, 0x00, 0x00];
    drv.rx_buffer[0] = 5;
    drv.rx_buffer[1..6].copy_from_slice(&bytes);
    drv.regs.event_status = RX_DONE;
    drv.interrupt();
    match drv.get_received() {
        Some(Err(Error::BadInput)) => {},
        other => panic!("expected Some(Err(BadInput)), got {:?}", other),
    }
}
