use esp_ieee802154::hal::{
    Command, CoexPriority, Ieee802154EdSampleMode, Ieee802154Event, Ieee802154RxAbortReason,
    Ieee802154TxAbortReason,
};
use esp_ieee802154::pib::Ieee802154CcaMode;
use esp_ieee802154::raw::Ieee802154State;
use esp_ieee802154::{Config, Ieee802154};

const RX_DONE: u16 = 0x0002;
const TX_DONE: u16 = 0x0001;
const ACK_TX_DONE: u16 = 0x0004;

#[test]
fn event_bits_match_layout() {
    assert_eq!(Ieee802154Event::Ieee802154EventTxDone.bit(), TX_DONE);
    assert_eq!(Ieee802154Event::Ieee802154EventRxDone.bit(), RX_DONE);
    assert_eq!(Ieee802154Event::Ieee802154EventAckTxDone.bit(), ACK_TX_DONE);
    assert_eq!(Ieee802154Event::Ieee802154EventMask.bit(), 0x1FFF);
}

#[test]
fn abort_reason_bits() {
    assert_eq!(
        Ieee802154TxAbortReason::Ieee802154TxAbortByRxAckTimeout.bit(),
        1 << 15
    );
    assert_eq!(
        Ieee802154TxAbortReason::Ieee802154TxAbortByCcaBusy.bit(),
        1 << 24
    );
    assert_eq!(
        Ieee802154RxAbortReason::Ieee802154RxAbortByRxStop.bit(),
        1 << 0
    );
    assert_eq!(
        Ieee802154RxAbortReason::Ieee802154RxAbortByTxAckCoexBreak.bit(),
        1 << 17
    );
}

#[test]
fn command_opcodes() {
    assert_eq!(Command::TxStart.opcode(), 0x41);
    assert_eq!(Command::RxStart.opcode(), 0x42);
    assert_eq!(Command::CcaTxStart.opcode(), 0x43);
    assert_eq!(Command::Stop.opcode(), 0x45);
    assert_eq!(Command::Timer1Stop.opcode(), 0x4F);
}

#[test]
fn mode_codes() {
    assert_eq!(Ieee802154EdSampleMode::Ieee802154EdSampleAvg.code(), 1);
    assert_eq!(Ieee802154EdSampleMode::Ieee802154EdSampleMax.code(), 0);
    assert_eq!(Ieee802154CcaMode::Ieee802154CcaModeCarrier.code(), 0);
    assert_eq!(Ieee802154CcaMode::Ieee802154CcaModeEd.code(), 1);
    assert_eq!(Ieee802154CcaMode::Ieee802154CcaModeCarrierOrEd.code(), 2);
    assert_eq!(Ieee802154CcaMode::Ieee802154CcaModeCarrierAndEd.code(), 3);
}

#[test]
fn new_driver_initial_state() {
    let drv = Ieee802154::new();
    assert_eq!(drv.state, Ieee802154State::Idle);
    assert_eq!(drv.rx_dropped, 0);
    assert_eq!(drv.regs.event_en, 0x1CFF);
    assert_eq!(drv.regs.tx_abort_interrupt_control, 0x0186_8000);
    assert_eq!(drv.regs.rx_abort_intr_ctrl, 0x0002_8000);
    assert_eq!(drv.regs.ed_sample_mode, 1);
    assert_eq!(drv.regs.rxon_delay, 50);
    assert_eq!(drv.regs.ack_pti, CoexPriority::Middle);
    assert_eq!(drv.regs.coex_pti, CoexPriority::Idle);
    assert!(drv.regs.commands.is_empty());
    assert!(drv.pib.promiscuous);
    assert!(drv.pib.auto_ack_tx);
    assert_eq!(drv.pib.channel, 11);
    assert_eq!(drv.pib.txpower, 10);
}

#[test]
fn start_receive_is_idempotent() {
    let mut drv = Ieee802154::new();
    drv.start_receive();
    drv.start_receive();
    // exactly one RxStart was issued
    assert_eq!(drv.regs.commands, vec![0x42]);
    assert_eq!(drv.state, Ieee802154State::Receive);
    assert!(drv.regs.rxdma_armed);
    assert_eq!(drv.regs.coex_pti, CoexPriority::Low);
}

#[test]
fn receive_pushes_pib_to_hardware() {
    let mut drv = Ieee802154::new();
    let cfg = Config {
        channel: 15,
        txpower: 14,
        promiscuous: true,
        cca_threshold: -60,
        cca_mode: Ieee802154CcaMode::Ieee802154CcaModeCarrierAndEd,
        pan_id: Some(0x4242),
        short_addr: Some(0x2222),
        ext_addr: Some(0x1122334455667788),
        ..Config::default()
    };
    drv.set_config(cfg);
    // nothing reaches hardware until a command is issued
    assert_eq!(drv.regs.freq, 3);
    drv.start_receive();
    assert_eq!(drv.regs.freq, 23);
    assert_eq!(drv.regs.tx_power, 15);
    assert!(drv.regs.promiscuous_mode);
    assert_eq!(drv.regs.cca_mode, 3);
    assert_eq!(drv.regs.cca_ed_threshold, (-60i8) as u8);
    assert_eq!(drv.regs.multipan_mask, 1);
    assert_eq!(drv.regs.inf_pan_id[0], 0x4242);
    assert_eq!(drv.regs.inf_short_addr[0], 0x2222);
    // the extended address is written as two little-endian halves
    assert_eq!(drv.regs.inf_ext_addr[0], 0x4433_2211);
    assert_eq!(drv.regs.inf_ext_addr[1], 0x8877_6655);
}

#[test]
fn multipan_enable_is_deferred_to_pib_update() {
    let mut drv = Ieee802154::new();
    esp_ieee802154::raw::set_multipan_enable(&mut drv.pib, 0x3);
    assert_eq!(drv.pib.multipan_mask, 0x3);
    // like every setter, nothing reaches hardware until a command
    assert_eq!(drv.regs.multipan_mask, 0);
    drv.start_receive();
    assert_eq!(drv.regs.multipan_mask, 0x3);
    // slot 1 is now active, so its default identity was pushed too
    assert_eq!(drv.regs.inf_pan_id[1], 0);
    assert_eq!(drv.regs.inf_short_addr[1], 0);
    assert_eq!(drv.regs.inf_ext_addr[2], 0xFFFF_FFFF);
    assert_eq!(drv.regs.inf_ext_addr[3], 0xFFFF_FFFF);
}

#[test]
fn tx_done_goes_idle_without_rx_when_idle() {
    let mut drv = Ieee802154::new();
    drv.state = Ieee802154State::Transmit;
    drv.regs.event_status = TX_DONE;
    drv.interrupt();
    assert_eq!(drv.state, Ieee802154State::Idle);
    assert!(drv.regs.commands.is_empty());
    assert_eq!(drv.regs.event_status, 0);
}

#[test]
fn tx_done_rearms_receive_with_rx_when_idle() {
    let mut drv = Ieee802154::new();
    drv.pib.rx_when_idle = true;
    drv.state = Ieee802154State::Transmit;
    drv.regs.event_status = TX_DONE;
    drv.interrupt();
    assert_eq!(drv.state, Ieee802154State::Receive);
    assert_eq!(drv.regs.commands, vec![0x42]);
    assert!(drv.regs.rxdma_armed);
}

#[test]
fn ack_tx_done_goes_idle() {
    let mut drv = Ieee802154::new();
    drv.state = Ieee802154State::TxAck;
    drv.regs.event_status = ACK_TX_DONE;
    drv.interrupt();
    assert_eq!(drv.state, Ieee802154State::Idle);
}

fn load_ack_requesting_frame(drv: &mut Ieee802154, version_bits: u8) {
    // 5 frame bytes; byte 1 carries the ack-request bit, byte 2 the version
    drv.rx_buffer[0] = 5;
    drv.rx_buffer[1] = 0x61;
    drv.rx_buffer[2] = 0x20;
    drv.rx_buffer[3] = version_bits;
    drv.rx_buffer[4] = 0;
    drv.rx_buffer[5] = 0;
}

#[test]
fn auto_ack_moves_to_tx_ack() {
    let mut drv = Ieee802154::new();
    load_ack_requesting_frame(&mut drv, 0x10);
    drv.regs.hw_auto_ack_tx_en = true;
    drv.regs.event_status = RX_DONE;
    drv.interrupt();
    assert_eq!(drv.state, Ieee802154State::TxAck);
    // hardware acknowledges autonomously: no command is issued
    assert!(drv.regs.commands.is_empty());
}

#[test]
fn auto_ack_disabled_falls_through() {
    let mut drv = Ieee802154::new();
    load_ack_requesting_frame(&mut drv, 0x10);
    drv.regs.hw_auto_ack_tx_en = false;
    drv.regs.hw_enhance_ack_tx_en = false;
    drv.regs.event_status = RX_DONE;
    drv.interrupt();
    assert_eq!(drv.state, Ieee802154State::Idle);
}

#[test]
fn enhanced_ack_frame_is_left_pending() {
    let mut drv = Ieee802154::new();
    // version 2015 frame requesting an acknowledgment
    load_ack_requesting_frame(&mut drv, 0x20);
    drv.state = Ieee802154State::Receive;
    drv.regs.hw_auto_ack_tx_en = true;
    drv.regs.hw_enhance_ack_tx_en = true;
    drv.regs.event_status = RX_DONE;
    drv.interrupt();
    // not a legacy frame, so no hardware auto-ack; enhanced acknowledgments
    // are not constructed, and the state stays
    assert_eq!(drv.state, Ieee802154State::Receive);
}

#[test]
fn queue_drops_newest_when_full() {
    let mut drv = Ieee802154::new();
    drv.rx_buffer[0] = 5;
    for round in 0..21u8 {
        // make each frame distinguishable
        drv.rx_buffer[1] = round;
        drv.regs.event_status = RX_DONE;
        drv.interrupt();
    }
    assert_eq!(drv.rx_dropped, 1);
    for round in 0..20u8 {
        let raw = drv.get_raw_received().expect("entry retained");
        assert_eq!(raw.data[1], round);
        assert_eq!(raw.channel, 11);
    }
    // the 21st frame was rejected, not an older one
    assert!(drv.get_raw_received().is_none());
}

#[test]
fn cca_transmit_issues_cca_tx_start() {
    let mut drv = Ieee802154::new();
    esp_ieee802154::raw::ieee802154_transmit(&drv.pib, &mut drv.state, &mut drv.regs, true);
    // the CCA path issues CcaTxStart and leaves the state alone
    assert_eq!(drv.regs.commands, vec![0x43]);
    assert_eq!(drv.state, Ieee802154State::Idle);
}

#[test]
fn raw_receive_tags_current_channel() {
    let mut drv = Ieee802154::new();
    drv.set_config(Config {
        channel: 26,
        ..Config::default()
    });
    drv.start_receive();
    drv.rx_buffer[0] = 4;
    drv.regs.event_status = RX_DONE;
    drv.interrupt();
    let raw = drv.get_raw_received().expect("one entry");
    assert_eq!(raw.channel, 26);
    assert_eq!(raw.data[0], 4);
}
