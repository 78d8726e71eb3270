//! Driver core for an IEEE 802.15.4 radio transceiver front-end.
//!
//! The crate models the radio's memory-mapped register block as an owned
//! value, keeps the PAN Information Base (PIB) as an owned store, and
//! drives the transmit/receive command sequencer and its interrupt events
//! as a state machine with a bounded receive queue. The driver owns all of
//! it as one value: clock gating, the vendor PHY bring-up and the physical
//! interrupt line stay outside, as does the wire-format codec for frame
//! bodies, which is called through a narrow, documented boundary.

use vstd::prelude::*;

pub mod frame;
pub mod hal;
pub mod pib;
pub mod raw;
pub mod util;

use crate::frame::{
    decode_frame, encode_into_buffer, frame_encode, spec_frame_decode, spec_frame_encodes, Frame,
    ReceivedFrame, FRAME_SIZE,
};
use crate::hal::{CoexPriority, RegisterBlock};
use crate::pib::{
    ieee802154_pib_init, spec_pib_channel_ok, Ieee802154CcaMode, Ieee802154Pib,
    CONFIG_IEEE802154_CCA_THRESHOLD,
};
use crate::raw::{
    handle_interrupt, ieee802154_mac_init, ieee802154_poll, ieee802154_receive,
    ieee802154_transmit, rx_queue_items, rx_queue_new, set_auto_ack_rx, set_auto_ack_tx,
    set_cca_mode, set_cca_theshold, set_channel, set_coordinator, set_enhance_ack_tx, set_panid,
    set_promiscuous, set_rx_when_idle, set_short_address, set_tx_power, spec_interrupt_handled,
    spec_receive_started, spec_transmit_issued, Ieee802154State, RawReceived, RX_QUEUE_CAPACITY,
};
use crate::util::{spec_rssi_to_lqi, spec_u64_be_bytes, u64_to_be_bytes};

verus! {

/// Errors returned when a received frame cannot be decoded.
#[derive(Debug, Clone, Copy, PartialEq, Eq, Structural)]
pub enum Error {
    /// The requested data is bigger than the available range, or the
    /// offset is invalid.
    Incomplete,
    /// The requested data content is invalid.
    BadInput,
}

/// Caller-facing driver configuration, applied with
/// [`Ieee802154::set_config`].
#[derive(Debug, Clone, Copy)]
pub struct Config {
    pub auto_ack_tx: bool,
    pub auto_ack_rx: bool,
    pub enhance_ack_tx: bool,
    pub promiscuous: bool,
    pub coordinator: bool,
    pub rx_when_idle: bool,
    pub txpower: i8,
    pub channel: u8,
    pub cca_threshold: i8,
    pub cca_mode: Ieee802154CcaMode,
    pub pan_id: Option<u16>,
    pub short_addr: Option<u16>,
    pub ext_addr: Option<u64>,
}

impl Default for Config {
    fn default() -> (r: Self)
        ensures
            !r.auto_ack_tx,
            !r.auto_ack_rx,
            !r.enhance_ack_tx,
            !r.promiscuous,
            !r.coordinator,
            !r.rx_when_idle,
            r.txpower == 10,
            r.channel == 15,
            r.cca_threshold == CONFIG_IEEE802154_CCA_THRESHOLD,
            r.cca_mode is Ieee802154CcaModeEd,
            r.pan_id is None,
            r.short_addr is None,
            r.ext_addr is None,
    {
        Self {
            auto_ack_tx: false,
            auto_ack_rx: false,
            enhance_ack_tx: false,
            promiscuous: false,
            coordinator: false,
            rx_when_idle: false,
            txpower: 10,
            channel: 15,
            cca_threshold: CONFIG_IEEE802154_CCA_THRESHOLD,
            cca_mode: Ieee802154CcaMode::Ieee802154CcaModeEd,
            pan_id: None,
            short_addr: None,
            ext_addr: None,
        }
    }
}

/// Every `Config` field has been written into slot 0 of the PIB; the
/// optional addressing fields only where they are set.
pub open spec fn spec_config_applied(
    cfg: Config,
    p0: Ieee802154Pib,
    p1: Ieee802154Pib,
) -> bool {
    &&& p1.auto_ack_tx == cfg.auto_ack_tx
    &&& p1.auto_ack_rx == cfg.auto_ack_rx
    &&& p1.enhance_ack_tx == cfg.enhance_ack_tx
    &&& p1.promiscuous == cfg.promiscuous
    &&& p1.coordinator == cfg.coordinator
    &&& p1.rx_when_idle == cfg.rx_when_idle
    &&& p1.txpower == cfg.txpower
    &&& p1.channel == cfg.channel
    &&& p1.cca_threshold == cfg.cca_threshold
    &&& p1.cca_mode == cfg.cca_mode
    &&& p1.pending_mode == p0.pending_mode
    &&& p1.multipan_mask == p0.multipan_mask
    &&& p1.panid@ == (match cfg.pan_id {
        Some(id) => p0.panid@.update(0, id),
        None => p0.panid@,
    })
    &&& p1.short_addr@ == (match cfg.short_addr {
        Some(addr) => p0.short_addr@.update(0, addr),
        None => p0.short_addr@,
    })
    &&& p1.ext_addr@ == (match cfg.ext_addr {
        Some(ext) => p0.ext_addr@.update(0, p1.ext_addr@[0]),
        None => p0.ext_addr@,
    })
    &&& cfg.ext_addr matches Some(ext) ==> p1.ext_addr@[0]@ == spec_u64_be_bytes(ext)
}

/// The PIB as [`Ieee802154::new`] leaves it.
pub open spec fn spec_initial_pib(pib: Ieee802154Pib) -> bool {
    &&& pib.auto_ack_tx
    &&& pib.auto_ack_rx
    &&& pib.enhance_ack_tx
    &&& !pib.coordinator
    &&& pib.promiscuous
    &&& !pib.rx_when_idle
    &&& pib.txpower == 10
    &&& pib.channel == 11
    &&& pib.pending_mode is Ieee802154AutoPendingDisable
    &&& pib.multipan_mask == 1
    &&& forall|i: int| 0 <= i < 4 ==> pib.panid@[i] == 0
    &&& forall|i: int| 0 <= i < 4 ==> pib.short_addr@[i] == 0
    &&& forall|i: int, j: int| 0 <= i < 4 && 0 <= j < 8 ==> pib.ext_addr@[i]@[j] == 0xff
    &&& pib.cca_threshold == CONFIG_IEEE802154_CCA_THRESHOLD
    &&& pib.cca_mode is Ieee802154CcaModeEd
}

/// The register block as [`Ieee802154::new`] leaves it: the full event
/// set enabled but the timer overflows, the fixed TX/RX abort reasons
/// enabled, averaging energy-detect sampling, the acknowledgment
/// coexistence priority raised, the idle scene signalled, a 50-unit
/// RX-on delay, and no command issued yet.
pub open spec fn spec_initial_regs(regs: RegisterBlock) -> bool {
    &&& regs.event_en == 0x1CFF
    &&& regs.event_status == 0
    &&& regs.tx_abort_interrupt_control == 0x01868000
    &&& regs.rx_abort_intr_ctrl == 0x00028000
    &&& regs.ed_sample_mode == 1
    &&& regs.cca_mode == 0
    &&& regs.cca_ed_threshold == 0
    &&& regs.freq == 3
    &&& regs.tx_power == 0
    &&& !regs.hw_auto_ack_tx_en
    &&& !regs.hw_auto_ack_rx_en
    &&& !regs.hw_enhance_ack_tx_en
    &&& !regs.pan_coordinator
    &&& !regs.promiscuous_mode
    &&& !regs.autopend_enhance
    &&& regs.multipan_mask == 0
    &&& !regs.sec_en
    &&& regs.rxon_delay == 50
    &&& !regs.txdma_armed
    &&& !regs.rxdma_armed
    &&& regs.commands@ == Seq::<u8>::empty()
    &&& regs.coex_pti == CoexPriority::Idle
    &&& regs.ack_pti == CoexPriority::Middle
}

/// The IEEE 802.15.4 driver: one value owning the transmit and receive
/// buffers, the receive queue, the operational state, the PIB and the
/// register block model. The fields are open to inspection; the verified
/// methods keep [`Ieee802154::wf`].
pub struct Ieee802154 {
    pub transmit_buffer: [u8; FRAME_SIZE],
    pub rx_buffer: [u8; FRAME_SIZE],
    pub rx_queue: heapless::spsc::Queue<RawReceived, 21>,
    pub state: Ieee802154State,
    pub pib: Ieee802154Pib,
    pub regs: RegisterBlock,
    pub rx_dropped: u64,
}

impl Ieee802154 {
    /// Well-formedness: the PIB holds a channel of the band, the channel
    /// register holds a derivable frequency word, and the queue is within
    /// capacity with full-sized entries.
    pub open spec fn wf(self) -> bool {
        &&& spec_pib_channel_ok(self.pib)
        &&& self.regs.freq >= 3
        &&& rx_queue_items(self.rx_queue).len() <= RX_QUEUE_CAPACITY
        &&& forall|i: int|
            0 <= i < rx_queue_items(self.rx_queue).len() ==> #[trigger] rx_queue_items(
                self.rx_queue,
            )[i].0.len() == FRAME_SIZE
    }

    /// Construct a new driver with the radio initialized: the PIB at its
    /// defaults, the static masks programmed, no command issued, state
    /// Idle, the queue empty. Clock gating and the vendor PHY bring-up
    /// are the caller's business and precede this in a deployment.
    pub fn new() -> (r: Self)
        ensures
            r.wf(),
            r.state is Idle,
            r.rx_dropped == 0,
            rx_queue_items(r.rx_queue) == Seq::<(Seq<u8>, u8)>::empty(),
            spec_initial_pib(r.pib),
            spec_initial_regs(r.regs),
            forall|i: int| 0 <= i < FRAME_SIZE ==> r.transmit_buffer@[i] == 0,
            forall|i: int| 0 <= i < FRAME_SIZE ==> r.rx_buffer@[i] == 0,
    {
        broadcast use vstd::array::group_array_axioms;

        let mut regs = RegisterBlock::new();
        ieee802154_mac_init(&mut regs);
        proof {
            assert((0u16 | 0x1FFFu16) & !0x0300u16 == 0x1CFFu16) by (bit_vector);
            assert(0u32 | 0x01868000u32 == 0x01868000u32) by (bit_vector);
            assert(0u32 | 0x00028000u32 == 0x00028000u32) by (bit_vector);
        }
        let pib = ieee802154_pib_init();
        Ieee802154 {
            transmit_buffer: [0u8; FRAME_SIZE],
            rx_buffer: [0u8; FRAME_SIZE],
            rx_queue: rx_queue_new(),
            state: Ieee802154State::Idle,
            pib,
            regs,
            rx_dropped: 0,
        }
    }

    /// Push every configuration field into the PIB. Hardware is not
    /// touched here; the PIB is synchronized into the register block on
    /// the next transmit or receive call.
    pub fn set_config(&mut self, cfg: Config)
        requires
            old(self).wf(),
            11 <= cfg.channel <= 26,
        ensures
            final(self).wf(),
            spec_config_applied(cfg, old(self).pib, final(self).pib),
            *final(self) == (Ieee802154 { pib: final(self).pib, ..*old(self) }),
    {
        set_auto_ack_tx(&mut self.pib, cfg.auto_ack_tx);
        set_auto_ack_rx(&mut self.pib, cfg.auto_ack_rx);
        set_enhance_ack_tx(&mut self.pib, cfg.enhance_ack_tx);
        set_promiscuous(&mut self.pib, cfg.promiscuous);
        set_coordinator(&mut self.pib, cfg.coordinator);
        set_rx_when_idle(&mut self.pib, cfg.rx_when_idle);
        set_tx_power(&mut self.pib, cfg.txpower);
        set_channel(&mut self.pib, cfg.channel);
        set_cca_theshold(&mut self.pib, cfg.cca_threshold);
        set_cca_mode(&mut self.pib, cfg.cca_mode);

        if let Some(pan_id) = cfg.pan_id {
            set_panid(&mut self.pib, 0, pan_id);
        }

        if let Some(short_addr) = cfg.short_addr {
            set_short_address(&mut self.pib, 0, short_addr);
        }

        if let Some(ext_addr) = cfg.ext_addr {
            let address = u64_to_be_bytes(ext_addr);
            raw::set_extended_address(&mut self.pib, 0, address);
        }
    }

    /// Start receiving frames. Idempotent: a call while already receiving
    /// leaves everything alone, so an in-flight reception is never
    /// aborted.
    pub fn start_receive(&mut self)
        requires
            old(self).wf(),
        ensures
            final(self).wf(),
            old(self).state is Receive ==> *final(self) == *old(self),
            !(old(self).state is Receive) ==> final(self).state is Receive
                && spec_receive_started(old(self).pib, old(self).regs, final(self).regs)
                && *final(self) == (Ieee802154 {
                state: final(self).state,
                regs: final(self).regs,
                ..*old(self)
            }),
    {
        ieee802154_receive(&self.pib, &mut self.state, &mut self.regs);
    }

    /// Return the raw data of a received frame, oldest first, if any.
    pub fn get_raw_received(&mut self) -> (r: Option<RawReceived>)
        requires
            old(self).wf(),
        ensures
            final(self).wf(),
            *final(self) == (Ieee802154 { rx_queue: final(self).rx_queue, ..*old(self) }),
            rx_queue_items(old(self).rx_queue).len() == 0 ==> r is None && rx_queue_items(
                final(self).rx_queue,
            ) == rx_queue_items(old(self).rx_queue),
            rx_queue_items(old(self).rx_queue).len() > 0 ==> (r matches Some(it) && it.data@
                == rx_queue_items(old(self).rx_queue)[0].0 && it.channel == rx_queue_items(
                old(self).rx_queue,
            )[0].1 && rx_queue_items(final(self).rx_queue) == rx_queue_items(
                old(self).rx_queue,
            ).drop_first()),
    {
        ieee802154_poll(&mut self.rx_queue)
    }

    /// Dequeue and decode the oldest received frame: the frame bytes are
    /// handed to the codec, the trailing RSSI byte (where hardware
    /// replaced the checksum) is extracted, and the LQI derived from it.
    pub fn get_received(&mut self) -> (r: Option<Result<ReceivedFrame, Error>>)
        requires
            old(self).wf(),
        ensures
            final(self).wf(),
            *final(self) == (Ieee802154 { rx_queue: final(self).rx_queue, ..*old(self) }),
            rx_queue_items(old(self).rx_queue).len() == 0 ==> r is None && rx_queue_items(
                final(self).rx_queue,
            ) == rx_queue_items(old(self).rx_queue),
            rx_queue_items(old(self).rx_queue).len() > 0 ==> rx_queue_items(final(self).rx_queue)
                == rx_queue_items(old(self).rx_queue).drop_first() && (r matches Some(res)
                && spec_received_result(
                rx_queue_items(old(self).rx_queue)[0].0,
                rx_queue_items(old(self).rx_queue)[0].1,
                res,
            )),
    {
        match ieee802154_poll(&mut self.rx_queue) {
            None => None,
            Some(raw) => {
                let len = raw.data[0] as usize;
                if len > 128 {
                    return Some(Err(Error::Incomplete));
                }
                let frm = vstd::slice::slice_subrange(raw.data.as_slice(), 1, 1 + len);
                match decode_frame(frm) {
                    Ok(frame) => {
                        let rssi = raw.data[len - 1] as i8;
                        let lqi = crate::util::rssi_to_lqi(rssi);
                        Some(
                            Ok(
                                ReceivedFrame {
                                    frame,
                                    channel: raw.channel,
                                    rssi,
                                    lqi,
                                },
                            ),
                        )
                    },
                    Err(e) => Some(Err(e)),
                }
            },
        }
    }

    /// Serialize the frame into the length-prefixed transmit buffer and
    /// issue a plain TxStart (no clear channel assessment). The frame
    /// must fit the transmit buffer; an unverified caller that violates
    /// this traps, as buffer sizing is a build-time obligation.
    pub fn transmit(&mut self, frame: &Frame) -> (r: Result<(), Error>)
        requires
            old(self).wf(),
            spec_frame_encodes(*frame),
        ensures
            final(self).wf(),
            r is Ok,
            final(self).state is Transmit,
            spec_transmit_issued(old(self).pib, old(self).regs, final(self).regs, false),
            *final(self) == (Ieee802154 {
                transmit_buffer: final(self).transmit_buffer,
                state: final(self).state,
                regs: final(self).regs,
                ..*old(self)
            }),
            ({
                let s = frame_encode(frame.header, frame.content, frame.payload@, frame.footer@)
                    ->Some_0;
                &&& final(self).transmit_buffer@[0] == s.len() as u8
                &&& final(self).transmit_buffer@.subrange(1, s.len() as int + 1) == s
                &&& final(self).transmit_buffer@.skip(s.len() as int + 1) == old(
                    self,
                ).transmit_buffer@.skip(s.len() as int + 1)
            }),
    {
        match encode_into_buffer(frame, &mut self.transmit_buffer) {
            Some(_offset) => {
                ieee802154_transmit(&self.pib, &mut self.state, &mut self.regs, false);
                Ok(())
            },
            None => {
                // excluded by the precondition: the codec rejected the frame
                vstd::pervasive::unreached()
            },
        }
    }

    /// Transmit only if the codec accepts the frame: a frame that does
    /// not fit the transmit buffer is reported as `None`, with the
    /// driver left untouched, instead of trapping.
    pub fn try_transmit(&mut self, frame: &Frame) -> (r: Option<Result<(), Error>>)
        requires
            old(self).wf(),
        ensures
            final(self).wf(),
            spec_frame_encodes(*frame) ==> (r matches Some(res) && res is Ok)
                && final(self).state is Transmit
                && spec_transmit_issued(old(self).pib, old(self).regs, final(self).regs, false)
                && *final(self) == (Ieee802154 {
                transmit_buffer: final(self).transmit_buffer,
                state: final(self).state,
                regs: final(self).regs,
                ..*old(self)
            }) && ({
                let s = frame_encode(frame.header, frame.content, frame.payload@, frame.footer@)
                    ->Some_0;
                &&& final(self).transmit_buffer@[0] == s.len() as u8
                &&& final(self).transmit_buffer@.subrange(1, s.len() as int + 1) == s
                &&& final(self).transmit_buffer@.skip(s.len() as int + 1) == old(
                    self,
                ).transmit_buffer@.skip(s.len() as int + 1)
            }),
            !spec_frame_encodes(*frame) ==> r is None && *final(self) == *old(self),
    {
        let mut scratch: [u8; FRAME_SIZE] = [0u8; FRAME_SIZE];
        match encode_into_buffer(frame, &mut scratch) {
            Some(_offset) => Some(self.transmit(frame)),
            None => None,
        }
    }

    /// React to the latched interrupt events, as the handler on the
    /// radio's interrupt line would: see [`raw::handle_interrupt`]. A
    /// hosted harness latches a synthetic event bitmap into
    /// `regs.event_status` and calls this directly.
    pub fn interrupt(&mut self)
        requires
            old(self).wf(),
        ensures
            final(self).wf(),
            spec_interrupt_handled(
                old(self).pib,
                old(self).rx_buffer@,
                old(self).state,
                final(self).state,
                old(self).regs,
                final(self).regs,
                rx_queue_items(old(self).rx_queue),
                rx_queue_items(final(self).rx_queue),
                old(self).rx_dropped,
                final(self).rx_dropped,
            ),
            *final(self) == (Ieee802154 {
                state: final(self).state,
                regs: final(self).regs,
                rx_queue: final(self).rx_queue,
                rx_dropped: final(self).rx_dropped,
                ..*old(self)
            }),
    {
        let rx_buffer = self.rx_buffer;
        handle_interrupt(
            &self.pib,
            &mut self.state,
            &mut self.regs,
            &mut self.rx_queue,
            &rx_buffer,
            &mut self.rx_dropped,
        );
    }
}

/// What `get_received` owes for the oldest queue entry `data` (tagged
/// `channel`): a length byte beyond the buffer is incomplete; otherwise
/// the codec's verdict on the frame bytes decides, and on success the
/// RSSI is the byte at the end of the frame with the LQI derived from it.
pub open spec fn spec_received_result(
    data: Seq<u8>,
    channel: u8,
    res: Result<ReceivedFrame, Error>,
) -> bool {
    let n = data[0] as int;
    if n > 128 {
        res == Err::<ReceivedFrame, Error>(Error::Incomplete)
    } else {
        match spec_frame_decode(data.subrange(1, 1 + n)) {
            Ok(d) => res matches Ok(rf) && rf.frame.header == d.0 && rf.frame.content == d.1
                && rf.frame.payload@ == d.2 && rf.frame.footer@ == d.3 && rf.channel == channel
                && rf.rssi == data[n - 1] as i8 && rf.lqi == spec_rssi_to_lqi(
                data[n - 1] as i8 as int,
            ),
            Err(e) => res == Err::<ReceivedFrame, Error>(e),
        }
    }
}

} // verus!
