//! Driver core: the operational state machine, the bounded receive queue,
//! the PIB setters, and the interrupt event handler that ties them
//! together.

use vstd::prelude::*;

use crate::frame::{
    ieee802154_frame_get_version, ieee802154_frame_is_ack_required, spec_frame_is_ack_required,
    spec_frame_version, FRAME_SIZE, IEEE802154_FRAME_VERSION_1, IEEE802154_FRAME_VERSION_2,
};
use crate::hal::{
    clear_events, get_events, get_freq, get_tx_auto_ack, get_tx_enhance_ack, set_cmd, set_rx_addr,
    set_transmit_security, set_tx_addr, CoexPriority, Command, Ieee802154EdSampleMode,
    Ieee802154Event, Ieee802154RxAbortReason, Ieee802154TxAbortReason, RegisterBlock,
};
use crate::pib::{
    ieee802154_pib_update, spec_masks_unchanged, spec_pib_channel_ok, spec_pib_mirrored,
    Ieee802154CcaMode, Ieee802154PendingMode, Ieee802154Pib, IEEE802154_FRAME_EXT_ADDR_SIZE,
};
use crate::util::{
    freq_to_channel, ieee802154_set_txrx_pti, spec_freq_to_channel, Ieee802154TxrxScene,
};

verus! {

broadcast use vstd::array::group_array_axioms;

/// Operational state of the radio sequencer, as the driver tracks it.
#[derive(Debug, Clone, Copy, PartialEq, Eq, Structural)]
pub enum Ieee802154State {
    Idle,
    Receive,
    Transmit,
    TxAck,
}

/// A raw received frame: the receive buffer as hardware left it (length
/// byte, frame bytes, RSSI byte) and the channel it was received on.
#[derive(Debug, Clone, Copy)]
pub struct RawReceived {
    pub data: [u8; FRAME_SIZE],
    pub channel: u8,
}

#[verifier::external_type_specification]
#[verifier::external_body]
#[verifier::reject_recursive_types(T)]
pub struct ExQueue<T, const N: usize>(heapless::spsc::Queue<T, N>);

/// The receive queue holds at most 20 entries; its ring buffer needs one
/// spare slot.
pub const RX_QUEUE_CAPACITY: usize = 20;

/// What the receive queue holds, oldest first, each entry reduced to the
/// buffer bytes and the channel.
pub uninterp spec fn rx_queue_items(q: heapless::spsc::Queue<RawReceived, 21>) -> Seq<
    (Seq<u8>, u8),
>;

/// Relies on `heapless::spsc::Queue::new`: the queue starts empty.
#[verifier::external_body]
pub(crate) fn rx_queue_new() -> (q: heapless::spsc::Queue<RawReceived, 21>)
    ensures
        rx_queue_items(q) == Seq::<(Seq<u8>, u8)>::empty(),
{
    heapless::spsc::Queue::new()
}

/// Relies on `heapless::spsc::Queue::is_full`: a queue of 21 slots is
/// full exactly when it holds 20 items.
#[verifier::external_body]
pub(crate) fn rx_queue_is_full(q: &heapless::spsc::Queue<RawReceived, 21>) -> (r: bool)
    ensures
        r == (rx_queue_items(*q).len() >= RX_QUEUE_CAPACITY),
{
    q.is_full()
}

/// Relies on `heapless::spsc::Queue::enqueue`: appends the item at the
/// back, or hands it back when the queue is full.
#[verifier::external_body]
pub(crate) fn rx_queue_enqueue(
    q: &mut heapless::spsc::Queue<RawReceived, 21>,
    item: RawReceived,
) -> (r: Result<(), RawReceived>)
    ensures
        rx_queue_items(*old(q)).len() < RX_QUEUE_CAPACITY ==> r is Ok && rx_queue_items(*final(q))
            == rx_queue_items(*old(q)).push((item.data@, item.channel)),
        rx_queue_items(*old(q)).len() >= RX_QUEUE_CAPACITY ==> r is Err && rx_queue_items(
            *final(q),
        ) == rx_queue_items(*old(q)),
{
    q.enqueue(item)
}

/// Relies on `heapless::spsc::Queue::dequeue`: removes and returns the
/// oldest item, or nothing when the queue is empty.
#[verifier::external_body]
pub(crate) fn rx_queue_dequeue(q: &mut heapless::spsc::Queue<RawReceived, 21>) -> (r: Option<
    RawReceived,
>)
    ensures
        rx_queue_items(*old(q)).len() == 0 ==> r is None && rx_queue_items(*final(q))
            == rx_queue_items(*old(q)),
        rx_queue_items(*old(q)).len() > 0 ==> (r matches Some(it) && it.data@ == rx_queue_items(
            *old(q),
        )[0].0 && it.channel == rx_queue_items(*old(q))[0].1 && rx_queue_items(*final(q))
            == rx_queue_items(*old(q)).drop_first()),
{
    q.dequeue()
}

/// Drain the oldest queued raw frame, if any.
pub fn ieee802154_poll(queue: &mut heapless::spsc::Queue<RawReceived, 21>) -> (r: Option<
    RawReceived,
>)
    ensures
        rx_queue_items(*old(queue)).len() == 0 ==> r is None && rx_queue_items(*final(queue))
            == rx_queue_items(*old(queue)),
        rx_queue_items(*old(queue)).len() > 0 ==> (r matches Some(it) && it.data@
            == rx_queue_items(*old(queue))[0].0 && it.channel == rx_queue_items(*old(queue))[0].1
            && rx_queue_items(*final(queue)) == rx_queue_items(*old(queue)).drop_first()),
{
    rx_queue_dequeue(queue)
}

pub fn set_promiscuous(pib: &mut Ieee802154Pib, enable: bool)
    ensures
        *final(pib) == (Ieee802154Pib { promiscuous: enable, ..*old(pib) }),
{
    pib.promiscuous = enable;
}

pub fn set_auto_ack_tx(pib: &mut Ieee802154Pib, enable: bool)
    ensures
        *final(pib) == (Ieee802154Pib { auto_ack_tx: enable, ..*old(pib) }),
{
    pib.auto_ack_tx = enable;
}

pub fn set_auto_ack_rx(pib: &mut Ieee802154Pib, enable: bool)
    ensures
        *final(pib) == (Ieee802154Pib { auto_ack_rx: enable, ..*old(pib) }),
{
    pib.auto_ack_rx = enable;
}

pub fn set_enhance_ack_tx(pib: &mut Ieee802154Pib, enable: bool)
    ensures
        *final(pib) == (Ieee802154Pib { enhance_ack_tx: enable, ..*old(pib) }),
{
    pib.enhance_ack_tx = enable;
}

pub fn set_coordinator(pib: &mut Ieee802154Pib, enable: bool)
    ensures
        *final(pib) == (Ieee802154Pib { coordinator: enable, ..*old(pib) }),
{
    pib.coordinator = enable;
}

pub fn set_rx_when_idle(pib: &mut Ieee802154Pib, enable: bool)
    ensures
        *final(pib) == (Ieee802154Pib { rx_when_idle: enable, ..*old(pib) }),
{
    pib.rx_when_idle = enable;
}

pub fn set_tx_power(pib: &mut Ieee802154Pib, power: i8)
    ensures
        *final(pib) == (Ieee802154Pib { txpower: power, ..*old(pib) }),
{
    pib.txpower = power;
}

pub fn set_channel(pib: &mut Ieee802154Pib, channel: u8)
    requires
        11 <= channel <= 26,
    ensures
        *final(pib) == (Ieee802154Pib { channel: channel, ..*old(pib) }),
{
    pib.channel = channel;
}

pub fn set_pending_mode(pib: &mut Ieee802154Pib, mode: Ieee802154PendingMode)
    ensures
        *final(pib) == (Ieee802154Pib { pending_mode: mode, ..*old(pib) }),
{
    pib.pending_mode = mode;
}

/// Record the multipan enable mask in the PIB; like every setter, this
/// touches no hardware — the mask reaches the register block on the next
/// PIB push.
pub fn set_multipan_enable(pib: &mut Ieee802154Pib, mask: u8)
    ensures
        *final(pib) == (Ieee802154Pib { multipan_mask: mask, ..*old(pib) }),
{
    pib.multipan_mask = mask;
}

pub fn set_panid(pib: &mut Ieee802154Pib, index: u8, id: u16)
    requires
        index < 4,
    ensures
        final(pib).panid@ == old(pib).panid@.update(index as int, id),
        *final(pib) == (Ieee802154Pib { panid: final(pib).panid, ..*old(pib) }),
{
    pib.panid[index as usize] = id;
}

pub fn set_short_address(pib: &mut Ieee802154Pib, index: u8, address: u16)
    requires
        index < 4,
    ensures
        final(pib).short_addr@ == old(pib).short_addr@.update(index as int, address),
        *final(pib) == (Ieee802154Pib { short_addr: final(pib).short_addr, ..*old(pib) }),
{
    pib.short_addr[index as usize] = address;
}

pub fn set_extended_address(
    pib: &mut Ieee802154Pib,
    index: u8,
    address: [u8; IEEE802154_FRAME_EXT_ADDR_SIZE],
)
    requires
        index < 4,
    ensures
        final(pib).ext_addr@ == old(pib).ext_addr@.update(index as int, address),
        *final(pib) == (Ieee802154Pib { ext_addr: final(pib).ext_addr, ..*old(pib) }),
{
    pib.ext_addr[index as usize] = address;
}

pub fn set_cca_theshold(pib: &mut Ieee802154Pib, cca_threshold: i8)
    ensures
        *final(pib) == (Ieee802154Pib { cca_threshold: cca_threshold, ..*old(pib) }),
{
    pib.cca_threshold = cca_threshold;
}

pub fn set_cca_mode(pib: &mut Ieee802154Pib, mode: Ieee802154CcaMode)
    ensures
        *final(pib) == (Ieee802154Pib { cca_mode: mode, ..*old(pib) }),
{
    pib.cca_mode = mode;
}

/// Security is not implemented: the transmit-security flag is always
/// cleared before a transmission.
fn ieee802154_sec_update(regs: &mut RegisterBlock)
    ensures
        *final(regs) == (RegisterBlock { sec_en: false, ..*old(regs) }),
{
    set_transmit_security(regs, false);
}

/// Point the RX DMA address at the driver's receive buffer.
fn set_next_rx_buffer(regs: &mut RegisterBlock)
    ensures
        *final(regs) == (RegisterBlock { rxdma_armed: true, ..*old(regs) }),
{
    set_rx_addr(regs);
}

/// Registers after arming receive from `a`: RX DMA armed, the receive
/// priority class signalled, one RxStart opcode issued; nothing else
/// touched.
pub open spec fn spec_rx_armed(a: RegisterBlock, b: RegisterBlock) -> bool {
    &&& b.commands@ == a.commands@.push(0x42u8)
    &&& b == (RegisterBlock {
        rxdma_armed: true,
        coex_pti: CoexPriority::Low,
        commands: b.commands,
        ..a
    })
}

fn rx_init(pib: &Ieee802154Pib, regs: &mut RegisterBlock)
    requires
        spec_pib_channel_ok(*pib),
    ensures
        crate::pib::spec_pib_pushed(*pib, *old(regs), *final(regs)),
{
    ieee802154_pib_update(pib, regs);
}

fn enable_rx(regs: &mut RegisterBlock)
    ensures
        spec_rx_armed(*old(regs), *final(regs)),
{
    set_next_rx_buffer(regs);
    ieee802154_set_txrx_pti(regs, Ieee802154TxrxScene::Ieee802154SceneRx);
    set_cmd(regs, Command::RxStart);
}

/// Combined effect of starting receive: the PIB mirrored into hardware,
/// RX DMA armed, the receive priority class signalled, one RxStart
/// opcode issued.
pub open spec fn spec_receive_started(
    pib: Ieee802154Pib,
    a: RegisterBlock,
    b: RegisterBlock,
) -> bool {
    &&& spec_pib_mirrored(pib, a, b)
    &&& spec_masks_unchanged(a, b)
    &&& b.sec_en == a.sec_en
    &&& b.txdma_armed == a.txdma_armed
    &&& b.rxdma_armed
    &&& b.coex_pti == CoexPriority::Low
    &&& b.ack_pti == a.ack_pti
    &&& b.commands@ == a.commands@.push(0x42u8)
}

/// Start receiving. A call while already receiving is a no-op, so an
/// in-flight reception is never aborted; otherwise the PIB is pushed,
/// the receive buffer armed and RxStart issued.
pub fn ieee802154_receive(
    pib: &Ieee802154Pib,
    state: &mut Ieee802154State,
    regs: &mut RegisterBlock,
) -> (r: i32)
    requires
        spec_pib_channel_ok(*pib),
    ensures
        r == 0,
        *old(state) is Receive ==> *final(state) == *old(state) && *final(regs) == *old(regs),
        !(*old(state) is Receive) ==> *final(state) is Receive && spec_receive_started(
            *pib,
            *old(regs),
            *final(regs),
        ),
{
    if *state == Ieee802154State::Receive {
        return 0;
    }

    rx_init(pib, regs);
    let ghost mid = *regs;
    enable_rx(regs);
    *state = Ieee802154State::Receive;

    proof {
        assert forall|i: int| 0 <= i < 4 implies (if #[trigger] crate::pib::spec_slot_enabled(
            pib.multipan_mask,
            i,
        ) {
            crate::pib::spec_slot_pushed(*pib, *regs, i)
        } else {
            crate::pib::spec_slot_unchanged(*old(regs), *regs, i)
        }) by {
            if crate::pib::spec_slot_enabled(pib.multipan_mask, i) {
                assert(crate::pib::spec_slot_pushed(*pib, mid, i));
            } else {
                assert(crate::pib::spec_slot_unchanged(*old(regs), mid, i));
            }
        }
    }
    0
}

/// Registers prepared for a transmission from `a`: the PIB mirrored into
/// hardware, transmit security cleared, both DMA addresses armed (the
/// receive buffer catches an incoming acknowledgment).
pub open spec fn spec_tx_inited(pib: Ieee802154Pib, a: RegisterBlock, b: RegisterBlock) -> bool {
    &&& spec_pib_mirrored(pib, a, b)
    &&& spec_masks_unchanged(a, b)
    &&& !b.sec_en
    &&& b.txdma_armed
    &&& b.rxdma_armed
    &&& b.commands == a.commands
    &&& b.coex_pti == a.coex_pti
    &&& b.ack_pti == a.ack_pti
}

/// Prepare a transmission: push the PIB, clear the transmit-security
/// flag, point the TX DMA address at the transmit buffer and arm the
/// receive buffer for the acknowledgment.
pub fn tx_init(pib: &Ieee802154Pib, regs: &mut RegisterBlock)
    requires
        spec_pib_channel_ok(*pib),
    ensures
        spec_tx_inited(*pib, *old(regs), *final(regs)),
{
    ieee802154_pib_update(pib, regs);
    let ghost mid = *regs;
    ieee802154_sec_update(regs);
    set_tx_addr(regs);
    set_next_rx_buffer(regs);

    proof {
        assert forall|i: int| 0 <= i < 4 implies (if #[trigger] crate::pib::spec_slot_enabled(
            pib.multipan_mask,
            i,
        ) {
            crate::pib::spec_slot_pushed(*pib, *regs, i)
        } else {
            crate::pib::spec_slot_unchanged(*old(regs), *regs, i)
        }) by {
            if crate::pib::spec_slot_enabled(pib.multipan_mask, i) {
                assert(crate::pib::spec_slot_pushed(*pib, mid, i));
            } else {
                assert(crate::pib::spec_slot_unchanged(*old(regs), mid, i));
            }
        }
    }
}

/// Registers after a transmit call from `a`: prepared as by [`tx_init`],
/// the transmit priority class signalled, and one start opcode issued —
/// CcaTxStart under clear channel assessment, else TxStart.
pub open spec fn spec_transmit_issued(
    pib: Ieee802154Pib,
    a: RegisterBlock,
    b: RegisterBlock,
    cca: bool,
) -> bool {
    &&& spec_pib_mirrored(pib, a, b)
    &&& spec_masks_unchanged(a, b)
    &&& !b.sec_en
    &&& b.txdma_armed
    &&& b.rxdma_armed
    &&& b.coex_pti == CoexPriority::Low
    &&& b.ack_pti == a.ack_pti
    &&& b.commands@ == a.commands@.push(if cca { 0x43u8 } else { 0x41u8 })
}

/// Issue a transmission of the frame in the transmit buffer. There is no
/// idempotence guard: every call prepares the radio and issues a start
/// opcode. Only the plain path records the Transmit state.
pub fn ieee802154_transmit(
    pib: &Ieee802154Pib,
    state: &mut Ieee802154State,
    regs: &mut RegisterBlock,
    cca: bool,
) -> (r: i32)
    requires
        spec_pib_channel_ok(*pib),
    ensures
        r == 0,
        spec_transmit_issued(*pib, *old(regs), *final(regs), cca),
        *final(state) == (if cca {
            *old(state)
        } else {
            Ieee802154State::Transmit
        }),
{
    tx_init(pib, regs);
    let ghost mid = *regs;
    ieee802154_set_txrx_pti(regs, Ieee802154TxrxScene::Ieee802154SceneTx);
    if cca {
        set_cmd(regs, Command::CcaTxStart);
    } else {
        set_cmd(regs, Command::TxStart);
        *state = Ieee802154State::Transmit;
    }

    proof {
        assert forall|i: int| 0 <= i < 4 implies (if #[trigger] crate::pib::spec_slot_enabled(
            pib.multipan_mask,
            i,
        ) {
            crate::pib::spec_slot_pushed(*pib, *regs, i)
        } else {
            crate::pib::spec_slot_unchanged(*old(regs), *regs, i)
        }) by {
            if crate::pib::spec_slot_enabled(pib.multipan_mask, i) {
                assert(crate::pib::spec_slot_pushed(*pib, mid, i));
            } else {
                assert(crate::pib::spec_slot_unchanged(*old(regs), mid, i));
            }
        }
    }
    0
}

/// The state the machine settles into when an operation completes: keep
/// receiving when the PIB asks for it, else go idle.
pub open spec fn spec_idle_next(pib: Ieee802154Pib) -> Ieee802154State {
    if pib.rx_when_idle {
        Ieee802154State::Receive
    } else {
        Ieee802154State::Idle
    }
}

fn next_operation(pib: &Ieee802154Pib, state: &mut Ieee802154State, regs: &mut RegisterBlock)
    ensures
        *final(state) == spec_idle_next(*pib),
        pib.rx_when_idle ==> spec_rx_armed(*old(regs), *final(regs)),
        !pib.rx_when_idle ==> *final(regs) == *old(regs),
{
    if crate::pib::ieee802154_pib_get_rx_when_idle(pib) {
        enable_rx(regs);
        *state = Ieee802154State::Receive;
    } else {
        *state = Ieee802154State::Idle;
    }
}

/// Hardware will answer the received frame with an automatic
/// acknowledgment: the frame requests one, its version is at most the
/// legacy threshold, and TX auto-ack is enabled in hardware.
pub open spec fn spec_will_auto_send_ack(frame: Seq<u8>, regs: RegisterBlock) -> bool {
    &&& spec_frame_is_ack_required(frame)
    &&& spec_frame_version(frame) <= IEEE802154_FRAME_VERSION_1
    &&& regs.hw_auto_ack_tx_en
}

pub fn will_auto_send_ack(frame: &[u8], regs: &RegisterBlock) -> (r: bool)
    requires
        frame@.len() >= 3,
    ensures
        r == spec_will_auto_send_ack(frame@, *regs),
{
    ieee802154_frame_is_ack_required(frame) && ieee802154_frame_get_version(frame)
        <= IEEE802154_FRAME_VERSION_1 && get_tx_auto_ack(regs)
}

/// An enhanced acknowledgment would be owed for the received frame: it
/// requests one, its version is at most the enhanced threshold, and TX
/// enhanced-ack is enabled in hardware.
pub open spec fn spec_should_send_enhanced_ack(frame: Seq<u8>, regs: RegisterBlock) -> bool {
    &&& spec_frame_is_ack_required(frame)
    &&& spec_frame_version(frame) <= IEEE802154_FRAME_VERSION_2
    &&& regs.hw_enhance_ack_tx_en
}

pub fn should_send_enhanced_ack(frame: &[u8], regs: &RegisterBlock) -> (r: bool)
    requires
        frame@.len() >= 3,
    ensures
        r == spec_should_send_enhanced_ack(frame@, *regs),
{
    ieee802154_frame_is_ack_required(frame) && ieee802154_frame_get_version(frame)
        <= IEEE802154_FRAME_VERSION_2 && get_tx_enhance_ack(regs)
}

/// Program the static event and abort masks, the energy-detect sampling
/// mode, the coexistence priorities and the RX-on delay. In a deployment
/// this runs once at power-up, after clock gating and the vendor PHY
/// bring-up, which are outside this crate.
pub fn ieee802154_mac_init(regs: &mut RegisterBlock)
    ensures
        *final(regs) == (RegisterBlock {
            event_en: (old(regs).event_en | 0x1FFF) & !0x0300,
            tx_abort_interrupt_control: old(regs).tx_abort_interrupt_control | 0x01868000,
            rx_abort_intr_ctrl: old(regs).rx_abort_intr_ctrl | 0x00028000,
            ed_sample_mode: 1,
            ack_pti: CoexPriority::Middle,
            coex_pti: CoexPriority::Idle,
            rxon_delay: 50,
            ..*old(regs)
        }),
{
    crate::hal::enable_events(regs, Ieee802154Event::Ieee802154EventMask.bit());
    let timers = Ieee802154Event::Ieee802154EventTimer0Overflow.bit()
        | Ieee802154Event::Ieee802154EventTimer1Overflow.bit();
    proof {
        assert(0x0100u16 | 0x0200u16 == 0x0300u16) by (bit_vector);
    }
    crate::hal::disable_events(regs, timers);

    let tx_aborts = Ieee802154TxAbortReason::Ieee802154TxAbortByRxAckTimeout.bit()
        | Ieee802154TxAbortReason::Ieee802154TxAbortByTxCoexBreak.bit()
        | Ieee802154TxAbortReason::Ieee802154TxAbortByTxSecurityError.bit()
        | Ieee802154TxAbortReason::Ieee802154TxAbortByCcaFailed.bit()
        | Ieee802154TxAbortReason::Ieee802154TxAbortByCcaBusy.bit();
    proof {
        assert((1u32 << 15) | (1u32 << 17) | (1u32 << 18) | (1u32 << 23) | (1u32 << 24)
            == 0x01868000u32) by (bit_vector);
    }
    crate::hal::enable_tx_abort_events(regs, tx_aborts);

    let rx_aborts = Ieee802154RxAbortReason::Ieee802154RxAbortByTxAckTimeout.bit()
        | Ieee802154RxAbortReason::Ieee802154RxAbortByTxAckCoexBreak.bit();
    proof {
        assert((1u32 << 15) | (1u32 << 17) == 0x00028000u32) by (bit_vector);
    }
    crate::hal::enable_rx_abort_events(regs, rx_aborts);

    crate::hal::set_ed_sample_mode(regs, Ieee802154EdSampleMode::Ieee802154EdSampleAvg);

    regs.ack_pti = CoexPriority::Middle;
    ieee802154_set_txrx_pti(regs, Ieee802154TxrxScene::Ieee802154SceneIdle);

    crate::hal::set_rx_on_delay(regs, 50);
}

pub open spec fn spec_has_event(events: u16, bit: u16) -> bool {
    events & bit != 0
}

/// The buffer's length byte admits reading the acknowledgment-request
/// and version fields: at least 3 frame bytes, and no more than fit the
/// buffer.
pub open spec fn spec_rx_frame_guard(buf: Seq<u8>) -> bool {
    3 <= buf[0] <= 128
}

/// The frame bytes of a raw receive buffer (without the length prefix).
pub open spec fn spec_rx_frame(buf: Seq<u8>) -> Seq<u8> {
    buf.subrange(1, 1 + buf[0] as int)
}

/// The received frame will be acknowledged by hardware autonomously.
pub open spec fn spec_auto_ack_pending(buf: Seq<u8>, regs: RegisterBlock) -> bool {
    spec_rx_frame_guard(buf) && spec_will_auto_send_ack(spec_rx_frame(buf), regs)
}

/// The received frame would be owed an enhanced acknowledgment.
pub open spec fn spec_enh_ack_pending(buf: Seq<u8>, regs: RegisterBlock) -> bool {
    spec_rx_frame_guard(buf) && spec_should_send_enhanced_ack(spec_rx_frame(buf), regs)
}

/// State after handling one event bitmap: TxDone, then RxDone with its
/// acknowledgment decision, then AckTxDone, each applied in that order.
pub open spec fn spec_handler_state(
    pib: Ieee802154Pib,
    s0: Ieee802154State,
    tx: bool,
    rx: bool,
    acktx: bool,
    auto_ack: bool,
    enh_ack: bool,
) -> Ieee802154State {
    let s1 = if tx {
        spec_idle_next(pib)
    } else {
        s0
    };
    let s2 = if rx {
        if auto_ack {
            Ieee802154State::TxAck
        } else if enh_ack {
            s1
        } else {
            spec_idle_next(pib)
        }
    } else {
        s1
    };
    if acktx {
        spec_idle_next(pib)
    } else {
        s2
    }
}

/// Number of completion events that fall through to the idle decision.
pub open spec fn spec_handler_ops(tx: bool, rx_next: bool, acktx: bool) -> int {
    (if tx {
        1int
    } else {
        0
    }) + (if rx_next {
        1int
    } else {
        0
    }) + (if acktx {
        1int
    } else {
        0
    })
}

/// Full effect of handling one interrupt, relating the state, register
/// block, queue contents and drop counter before (`s0`, `a`, `q0`, `d0`)
/// and after (`s1`, `b`, `q1`, `d1`): the latched events are cleared; on
/// RxDone the buffer is queued, or dropped and counted when the queue is
/// full; the state advances through TxDone, RxDone and AckTxDone in that
/// order; and each completion that falls through to the idle decision
/// re-arms receive and issues RxStart exactly when the PIB keeps receive
/// on idle.
pub open spec fn spec_interrupt_handled(
    pib: Ieee802154Pib,
    buf: Seq<u8>,
    s0: Ieee802154State,
    s1: Ieee802154State,
    a: RegisterBlock,
    b: RegisterBlock,
    q0: Seq<(Seq<u8>, u8)>,
    q1: Seq<(Seq<u8>, u8)>,
    d0: u64,
    d1: u64,
) -> bool {
    let ev = a.event_status;
    let tx = spec_has_event(ev, Ieee802154Event::Ieee802154EventTxDone.spec_bit());
    let rx = spec_has_event(ev, Ieee802154Event::Ieee802154EventRxDone.spec_bit());
    let acktx = spec_has_event(ev, Ieee802154Event::Ieee802154EventAckTxDone.spec_bit());
    let auto_ack = spec_auto_ack_pending(buf, a);
    let enh_ack = spec_enh_ack_pending(buf, a);
    let rx_next = rx && !auto_ack && !enh_ack;
    let n_ops = spec_handler_ops(tx, rx_next, acktx);
    let rearm = pib.rx_when_idle && n_ops > 0;
    &&& q1 == (if rx && q0.len() < RX_QUEUE_CAPACITY {
        q0.push((buf, spec_freq_to_channel(a.freq as int) as u8))
    } else {
        q0
    })
    &&& d1 == (if rx && q0.len() >= RX_QUEUE_CAPACITY {
        if d0 == u64::MAX {
            d0
        } else {
            (d0 + 1) as u64
        }
    } else {
        d0
    })
    &&& s1 == spec_handler_state(pib, s0, tx, rx, acktx, auto_ack, enh_ack)
    &&& b.event_status == 0
    &&& b.commands@ == a.commands@ + (if pib.rx_when_idle {
        Seq::new(n_ops as nat, |i: int| 0x42u8)
    } else {
        Seq::<u8>::empty()
    })
    &&& b.rxdma_armed == (a.rxdma_armed || rearm)
    &&& b.coex_pti == (if rearm {
        CoexPriority::Low
    } else {
        a.coex_pti
    })
    &&& b.event_en == a.event_en
    &&& b.tx_abort_interrupt_control == a.tx_abort_interrupt_control
    &&& b.rx_abort_intr_ctrl == a.rx_abort_intr_ctrl
    &&& b.ed_sample_mode == a.ed_sample_mode
    &&& b.cca_mode == a.cca_mode
    &&& b.cca_ed_threshold == a.cca_ed_threshold
    &&& b.freq == a.freq
    &&& b.tx_power == a.tx_power
    &&& b.hw_auto_ack_tx_en == a.hw_auto_ack_tx_en
    &&& b.hw_auto_ack_rx_en == a.hw_auto_ack_rx_en
    &&& b.hw_enhance_ack_tx_en == a.hw_enhance_ack_tx_en
    &&& b.pan_coordinator == a.pan_coordinator
    &&& b.promiscuous_mode == a.promiscuous_mode
    &&& b.autopend_enhance == a.autopend_enhance
    &&& b.multipan_mask == a.multipan_mask
    &&& b.inf_pan_id == a.inf_pan_id
    &&& b.inf_short_addr == a.inf_short_addr
    &&& b.inf_ext_addr == a.inf_ext_addr
    &&& b.sec_en == a.sec_en
    &&& b.rxon_delay == a.rxon_delay
    &&& b.txdma_armed == a.txdma_armed
    &&& b.ack_pti == a.ack_pti
}

/// Handle a completed reception: copy the receive buffer into the queue
/// tagged with the current channel — or drop it and count when the queue
/// is full — then let the acknowledgment policy decide the next state.
fn handle_rx_done(
    pib: &Ieee802154Pib,
    state: &mut Ieee802154State,
    regs: &mut RegisterBlock,
    queue: &mut heapless::spsc::Queue<RawReceived, 21>,
    rx_buffer: &[u8; FRAME_SIZE],
    rx_dropped: &mut u64,
)
    requires
        old(regs).freq >= 3,
    ensures
        rx_queue_items(*final(queue)) == (if rx_queue_items(*old(queue)).len()
            < RX_QUEUE_CAPACITY {
            rx_queue_items(*old(queue)).push(
                (rx_buffer@, spec_freq_to_channel(old(regs).freq as int) as u8),
            )
        } else {
            rx_queue_items(*old(queue))
        }),
        *final(rx_dropped) == (if rx_queue_items(*old(queue)).len() >= RX_QUEUE_CAPACITY {
            if *old(rx_dropped) == u64::MAX {
                *old(rx_dropped)
            } else {
                (*old(rx_dropped) + 1) as u64
            }
        } else {
            *old(rx_dropped)
        }),
        spec_auto_ack_pending(rx_buffer@, *old(regs)) ==> *final(state) is TxAck && *final(regs)
            == *old(regs),
        !spec_auto_ack_pending(rx_buffer@, *old(regs)) && spec_enh_ack_pending(
            rx_buffer@,
            *old(regs),
        ) ==> *final(state) == *old(state) && *final(regs) == *old(regs),
        !spec_auto_ack_pending(rx_buffer@, *old(regs)) && !spec_enh_ack_pending(
            rx_buffer@,
            *old(regs),
        ) ==> {
            &&& *final(state) == spec_idle_next(*pib)
            &&& (pib.rx_when_idle ==> spec_rx_armed(*old(regs), *final(regs)))
            &&& (!pib.rx_when_idle ==> *final(regs) == *old(regs))
        },
{
    if !rx_queue_is_full(queue) {
        let item = RawReceived {
            data: *rx_buffer,
            channel: freq_to_channel(get_freq(regs)),
        };
        let _queued = rx_queue_enqueue(queue, item);
    } else {
        // the queue rejects the newest frame; record the drop
        if *rx_dropped < u64::MAX {
            *rx_dropped = *rx_dropped + 1;
        }
    }

    let len = rx_buffer[0] as usize;
    if 3 <= len && len <= 128 {
        let frm = vstd::slice::slice_subrange(rx_buffer.as_slice(), 1, 1 + len);
        if will_auto_send_ack(frm, regs) {
            *state = Ieee802154State::TxAck;
        } else if should_send_enhanced_ack(frm, regs) {
            // enhanced acknowledgments are not constructed; the state is
            // deliberately left as it is
        } else {
            next_operation(pib, state, regs);
        }
    } else {
        // too short to carry an acknowledgment request
        next_operation(pib, state, regs);
    }
}

/// React to the latched interrupt events: read and clear the bitmap,
/// then handle, independently, the SFD timing markers (no state
/// effect), TxDone, RxDone and AckTxDone. On RxDone the receive buffer
/// is copied into the queue tagged with the current channel — or
/// dropped and counted when the queue is full — and the acknowledgment
/// policy decides the next state. In a deployment this runs on the
/// radio's interrupt line with further interrupts masked; a hosted
/// harness calls it directly after latching a synthetic event bitmap.
#[verifier::rlimit(100)]
pub fn handle_interrupt(
    pib: &Ieee802154Pib,
    state: &mut Ieee802154State,
    regs: &mut RegisterBlock,
    queue: &mut heapless::spsc::Queue<RawReceived, 21>,
    rx_buffer: &[u8; FRAME_SIZE],
    rx_dropped: &mut u64,
)
    requires
        old(regs).freq >= 3,
    ensures
        spec_interrupt_handled(
            *pib,
            rx_buffer@,
            *old(state),
            *final(state),
            *old(regs),
            *final(regs),
            rx_queue_items(*old(queue)),
            rx_queue_items(*final(queue)),
            *old(rx_dropped),
            *final(rx_dropped),
        ),
{
    let ghost a = *old(regs);

    let events = get_events(regs);
    clear_events(regs, events);
    proof {
        assert(events & !events == 0) by (bit_vector);
    }

    if events & Ieee802154Event::Ieee802154EventRxSfdDone.bit() != 0 {
        // timing marker only; no state effect
    }
    if events & Ieee802154Event::Ieee802154EventTxSfdDone.bit() != 0 {
        // timing marker only; no state effect
    }
    let ghost mut issued: int = 0;
    if events & Ieee802154Event::Ieee802154EventTxDone.bit() != 0 {
        next_operation(pib, state, regs);
        proof {
            issued = issued + 1;
        }
    }
    proof {
        if pib.rx_when_idle {
            assert(regs.commands@ =~= a.commands@ + Seq::new(issued as nat, |i: int| 0x42u8));
        }
    }
    if events & Ieee802154Event::Ieee802154EventRxDone.bit() != 0 {
        handle_rx_done(pib, state, regs, queue, rx_buffer, rx_dropped);
        proof {
            if !spec_auto_ack_pending(rx_buffer@, a) && !spec_enh_ack_pending(rx_buffer@, a) {
                issued = issued + 1;
            }
        }
    }
    proof {
        if pib.rx_when_idle {
            assert(regs.commands@ =~= a.commands@ + Seq::new(issued as nat, |i: int| 0x42u8));
        }
    }
    if events & Ieee802154Event::Ieee802154EventAckRxDone.bit() != 0 {
        // informational only
    }
    if events & Ieee802154Event::Ieee802154EventAckTxDone.bit() != 0 {
        next_operation(pib, state, regs);
        proof {
            issued = issued + 1;
        }
    }

    proof {
        if pib.rx_when_idle {
            assert(regs.commands@ =~= a.commands@ + Seq::new(issued as nat, |i: int| 0x42u8));
        } else {
            assert(regs.commands@ =~= a.commands@ + Seq::<u8>::empty());
        }
    }
}

} // verus!
