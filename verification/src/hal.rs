//! Model of the radio's memory-mapped register block and the named
//! read/modify/write operations the driver performs on it.
//!
//! The register block is held as an owned value: every register field the
//! driver touches is a plain field, and the opcodes written to the command
//! register are recorded in order, so that the command sequencing of the
//! driver can be stated and checked. In a deployment the same operations
//! would be backed by the generated register access layer; here they are
//! ordinary verified functions over the model.

use vstd::prelude::*;

verus! {

broadcast use vstd::array::group_array_axioms;

/// Interrupt event classes, one bit each in the event enable/status
/// registers; the mask variant covers all thirteen meaningful bits.
#[derive(Debug, Clone, Copy)]
pub enum Ieee802154Event {
    Ieee802154EventTxDone,
    Ieee802154EventRxDone,
    Ieee802154EventAckTxDone,
    Ieee802154EventAckRxDone,
    Ieee802154EventRxAbort,
    Ieee802154EventTxAbort,
    Ieee802154EventEdDone,
    Ieee802154EventTimer0Overflow,
    Ieee802154EventTimer1Overflow,
    Ieee802154EventClockCountMatch,
    Ieee802154EventTxSfdDone,
    Ieee802154EventRxSfdDone,
    Ieee802154EventMask,
}

impl Ieee802154Event {
    pub open spec fn spec_bit(self) -> u16 {
        match self {
            Ieee802154Event::Ieee802154EventTxDone => 0x0001,
            Ieee802154Event::Ieee802154EventRxDone => 0x0002,
            Ieee802154Event::Ieee802154EventAckTxDone => 0x0004,
            Ieee802154Event::Ieee802154EventAckRxDone => 0x0008,
            Ieee802154Event::Ieee802154EventRxAbort => 0x0010,
            Ieee802154Event::Ieee802154EventTxAbort => 0x0020,
            Ieee802154Event::Ieee802154EventEdDone => 0x0040,
            Ieee802154Event::Ieee802154EventTimer0Overflow => 0x0100,
            Ieee802154Event::Ieee802154EventTimer1Overflow => 0x0200,
            Ieee802154Event::Ieee802154EventClockCountMatch => 0x0400,
            Ieee802154Event::Ieee802154EventTxSfdDone => 0x0800,
            Ieee802154Event::Ieee802154EventRxSfdDone => 0x1000,
            Ieee802154Event::Ieee802154EventMask => 0x1FFF,
        }
    }

    pub fn bit(self) -> (r: u16)
        ensures
            r == self.spec_bit(),
    {
        match self {
            Ieee802154Event::Ieee802154EventTxDone => 0x0001,
            Ieee802154Event::Ieee802154EventRxDone => 0x0002,
            Ieee802154Event::Ieee802154EventAckTxDone => 0x0004,
            Ieee802154Event::Ieee802154EventAckRxDone => 0x0008,
            Ieee802154Event::Ieee802154EventRxAbort => 0x0010,
            Ieee802154Event::Ieee802154EventTxAbort => 0x0020,
            Ieee802154Event::Ieee802154EventEdDone => 0x0040,
            Ieee802154Event::Ieee802154EventTimer0Overflow => 0x0100,
            Ieee802154Event::Ieee802154EventTimer1Overflow => 0x0200,
            Ieee802154Event::Ieee802154EventClockCountMatch => 0x0400,
            Ieee802154Event::Ieee802154EventTxSfdDone => 0x0800,
            Ieee802154Event::Ieee802154EventRxSfdDone => 0x1000,
            Ieee802154Event::Ieee802154EventMask => 0x1FFF,
        }
    }
}

/// Reasons for which a transmission can be aborted; each has a bit in the
/// TX abort interrupt control register.
#[derive(Debug, Clone, Copy)]
pub enum Ieee802154TxAbortReason {
    Ieee802154TxAbortByRxAckStop,
    Ieee802154TxAbortByRxAckSfdTimeout,
    Ieee802154TxAbortByRxAckCrcError,
    Ieee802154TxAbortByRxAckInvalidLen,
    Ieee802154TxAbortByRxAckFilterFail,
    Ieee802154TxAbortByRxAckNoRss,
    Ieee802154TxAbortByRxAckCoexBreak,
    Ieee802154TxAbortByRxAckTypeNotAck,
    Ieee802154TxAbortByRxAckRestart,
    Ieee802154TxAbortByRxAckTimeout,
    Ieee802154TxAbortByTxStop,
    Ieee802154TxAbortByTxCoexBreak,
    Ieee802154TxAbortByTxSecurityError,
    Ieee802154TxAbortByCcaFailed,
    Ieee802154TxAbortByCcaBusy,
}

impl Ieee802154TxAbortReason {
    /// Reason number, as the hardware counts them (bit index plus one).
    pub open spec fn spec_value(self) -> u32 {
        match self {
            Ieee802154TxAbortReason::Ieee802154TxAbortByRxAckStop => 1,
            Ieee802154TxAbortReason::Ieee802154TxAbortByRxAckSfdTimeout => 2,
            Ieee802154TxAbortReason::Ieee802154TxAbortByRxAckCrcError => 3,
            Ieee802154TxAbortReason::Ieee802154TxAbortByRxAckInvalidLen => 4,
            Ieee802154TxAbortReason::Ieee802154TxAbortByRxAckFilterFail => 5,
            Ieee802154TxAbortReason::Ieee802154TxAbortByRxAckNoRss => 6,
            Ieee802154TxAbortReason::Ieee802154TxAbortByRxAckCoexBreak => 7,
            Ieee802154TxAbortReason::Ieee802154TxAbortByRxAckTypeNotAck => 8,
            Ieee802154TxAbortReason::Ieee802154TxAbortByRxAckRestart => 9,
            Ieee802154TxAbortReason::Ieee802154TxAbortByRxAckTimeout => 16,
            Ieee802154TxAbortReason::Ieee802154TxAbortByTxStop => 17,
            Ieee802154TxAbortReason::Ieee802154TxAbortByTxCoexBreak => 18,
            Ieee802154TxAbortReason::Ieee802154TxAbortByTxSecurityError => 19,
            Ieee802154TxAbortReason::Ieee802154TxAbortByCcaFailed => 24,
            Ieee802154TxAbortReason::Ieee802154TxAbortByCcaBusy => 25,
        }
    }

    pub open spec fn spec_bit(self) -> u32 {
        1u32 << (self.spec_value() - 1)
    }

    pub fn bit(&self) -> (r: u32)
        ensures
            r == self.spec_bit(),
    {
        let value = match self {
            Ieee802154TxAbortReason::Ieee802154TxAbortByRxAckStop => 1,
            Ieee802154TxAbortReason::Ieee802154TxAbortByRxAckSfdTimeout => 2,
            Ieee802154TxAbortReason::Ieee802154TxAbortByRxAckCrcError => 3,
            Ieee802154TxAbortReason::Ieee802154TxAbortByRxAckInvalidLen => 4,
            Ieee802154TxAbortReason::Ieee802154TxAbortByRxAckFilterFail => 5,
            Ieee802154TxAbortReason::Ieee802154TxAbortByRxAckNoRss => 6,
            Ieee802154TxAbortReason::Ieee802154TxAbortByRxAckCoexBreak => 7,
            Ieee802154TxAbortReason::Ieee802154TxAbortByRxAckTypeNotAck => 8,
            Ieee802154TxAbortReason::Ieee802154TxAbortByRxAckRestart => 9,
            Ieee802154TxAbortReason::Ieee802154TxAbortByRxAckTimeout => 16,
            Ieee802154TxAbortReason::Ieee802154TxAbortByTxStop => 17,
            Ieee802154TxAbortReason::Ieee802154TxAbortByTxCoexBreak => 18,
            Ieee802154TxAbortReason::Ieee802154TxAbortByTxSecurityError => 19,
            Ieee802154TxAbortReason::Ieee802154TxAbortByCcaFailed => 24,
            Ieee802154TxAbortReason::Ieee802154TxAbortByCcaBusy => 25,
        };
        1u32 << (value - 1)
    }
}

/// Reasons for which a reception can be aborted; each has a bit in the RX
/// abort interrupt control register.
#[derive(Debug, Clone, Copy)]
pub enum Ieee802154RxAbortReason {
    Ieee802154RxAbortByRxStop,
    Ieee802154RxAbortBySfdTimeout,
    Ieee802154RxAbortByCrcError,
    Ieee802154RxAbortByInvalidLen,
    Ieee802154RxAbortByFilterFail,
    Ieee802154RxAbortByNoRss,
    Ieee802154RxAbortByCoexBreak,
    Ieee802154RxAbortByUnexpectedAck,
    Ieee802154RxAbortByRxRestart,
    Ieee802154RxAbortByTxAckTimeout,
    Ieee802154RxAbortByTxAckStop,
    Ieee802154RxAbortByTxAckCoexBreak,
    Ieee802154RxAbortByEnhackSecurityError,
    Ieee802154RxAbortByEdAbort,
    Ieee802154RxAbortByEdStop,
    Ieee802154RxAbortByEdCoexReject,
}

impl Ieee802154RxAbortReason {
    /// Reason number, as the hardware counts them (bit index plus one).
    pub open spec fn spec_value(self) -> u32 {
        match self {
            Ieee802154RxAbortReason::Ieee802154RxAbortByRxStop => 1,
            Ieee802154RxAbortReason::Ieee802154RxAbortBySfdTimeout => 2,
            Ieee802154RxAbortReason::Ieee802154RxAbortByCrcError => 3,
            Ieee802154RxAbortReason::Ieee802154RxAbortByInvalidLen => 4,
            Ieee802154RxAbortReason::Ieee802154RxAbortByFilterFail => 5,
            Ieee802154RxAbortReason::Ieee802154RxAbortByNoRss => 6,
            Ieee802154RxAbortReason::Ieee802154RxAbortByCoexBreak => 7,
            Ieee802154RxAbortReason::Ieee802154RxAbortByUnexpectedAck => 8,
            Ieee802154RxAbortReason::Ieee802154RxAbortByRxRestart => 9,
            Ieee802154RxAbortReason::Ieee802154RxAbortByTxAckTimeout => 16,
            Ieee802154RxAbortReason::Ieee802154RxAbortByTxAckStop => 17,
            Ieee802154RxAbortReason::Ieee802154RxAbortByTxAckCoexBreak => 18,
            Ieee802154RxAbortReason::Ieee802154RxAbortByEnhackSecurityError => 19,
            Ieee802154RxAbortReason::Ieee802154RxAbortByEdAbort => 24,
            Ieee802154RxAbortReason::Ieee802154RxAbortByEdStop => 25,
            Ieee802154RxAbortReason::Ieee802154RxAbortByEdCoexReject => 26,
        }
    }

    pub open spec fn spec_bit(self) -> u32 {
        1u32 << (self.spec_value() - 1)
    }

    pub fn bit(&self) -> (r: u32)
        ensures
            r == self.spec_bit(),
    {
        let value = match self {
            Ieee802154RxAbortReason::Ieee802154RxAbortByRxStop => 1,
            Ieee802154RxAbortReason::Ieee802154RxAbortBySfdTimeout => 2,
            Ieee802154RxAbortReason::Ieee802154RxAbortByCrcError => 3,
            Ieee802154RxAbortReason::Ieee802154RxAbortByInvalidLen => 4,
            Ieee802154RxAbortReason::Ieee802154RxAbortByFilterFail => 5,
            Ieee802154RxAbortReason::Ieee802154RxAbortByNoRss => 6,
            Ieee802154RxAbortReason::Ieee802154RxAbortByCoexBreak => 7,
            Ieee802154RxAbortReason::Ieee802154RxAbortByUnexpectedAck => 8,
            Ieee802154RxAbortReason::Ieee802154RxAbortByRxRestart => 9,
            Ieee802154RxAbortReason::Ieee802154RxAbortByTxAckTimeout => 16,
            Ieee802154RxAbortReason::Ieee802154RxAbortByTxAckStop => 17,
            Ieee802154RxAbortReason::Ieee802154RxAbortByTxAckCoexBreak => 18,
            Ieee802154RxAbortReason::Ieee802154RxAbortByEnhackSecurityError => 19,
            Ieee802154RxAbortReason::Ieee802154RxAbortByEdAbort => 24,
            Ieee802154RxAbortReason::Ieee802154RxAbortByEdStop => 25,
            Ieee802154RxAbortReason::Ieee802154RxAbortByEdCoexReject => 26,
        };
        1u32 << (value - 1)
    }
}

/// Sampling mode of the energy-detect scanner.
#[derive(Debug, Clone, Copy)]
pub enum Ieee802154EdSampleMode {
    Ieee802154EdSampleMax,
    Ieee802154EdSampleAvg,
}

impl Ieee802154EdSampleMode {
    pub open spec fn spec_code(self) -> u8 {
        match self {
            Ieee802154EdSampleMode::Ieee802154EdSampleMax => 0,
            Ieee802154EdSampleMode::Ieee802154EdSampleAvg => 1,
        }
    }

    pub fn code(self) -> (r: u8)
        ensures
            r == self.spec_code(),
    {
        match self {
            Ieee802154EdSampleMode::Ieee802154EdSampleMax => 0,
            Ieee802154EdSampleMode::Ieee802154EdSampleAvg => 1,
        }
    }
}

/// Opcodes accepted by the command register.
#[derive(Debug, Clone, Copy, PartialEq, Eq, Structural)]
pub enum Command {
    TxStart,
    RxStart,
    CcaTxStart,
    EdStart,
    Stop,
    DtmTxStart,
    DtmRxStart,
    DtmStop,
    Timer0Start,
    Timer0Stop,
    Timer1Start,
    Timer1Stop,
}

impl Command {
    pub open spec fn spec_opcode(self) -> u8 {
        match self {
            Command::TxStart => 0x41,
            Command::RxStart => 0x42,
            Command::CcaTxStart => 0x43,
            Command::EdStart => 0x44,
            Command::Stop => 0x45,
            Command::DtmTxStart => 0x46,
            Command::DtmRxStart => 0x47,
            Command::DtmStop => 0x48,
            Command::Timer0Start => 0x4C,
            Command::Timer0Stop => 0x4D,
            Command::Timer1Start => 0x4E,
            Command::Timer1Stop => 0x4F,
        }
    }

    pub fn opcode(self) -> (r: u8)
        ensures
            r == self.spec_opcode(),
    {
        match self {
            Command::TxStart => 0x41,
            Command::RxStart => 0x42,
            Command::CcaTxStart => 0x43,
            Command::EdStart => 0x44,
            Command::Stop => 0x45,
            Command::DtmTxStart => 0x46,
            Command::DtmRxStart => 0x47,
            Command::DtmStop => 0x48,
            Command::Timer0Start => 0x4C,
            Command::Timer0Stop => 0x4D,
            Command::Timer1Start => 0x4E,
            Command::Timer1Stop => 0x4F,
        }
    }
}

/// Priority class signalled to the external coexistence arbiter.
#[derive(Debug, Clone, Copy, PartialEq, Eq, Structural)]
pub enum CoexPriority {
    Idle,
    Low,
    Middle,
}

/// Owned model of the radio's register block.
///
/// Registers with packed bit fields are split into one field per bit field.
/// The DMA address registers are reduced to "armed" flags: the driver owns
/// a single transmit buffer and a single receive buffer, and arming means
/// the corresponding DMA address register points at that buffer. Opcodes
/// written to the command register are recorded in `commands`, oldest
/// first, together with the two coexistence priority signals, so that
/// command sequencing is observable.
#[derive(Debug)]
pub struct RegisterBlock {
    pub event_en: u16,
    pub event_status: u16,
    pub tx_abort_interrupt_control: u32,
    pub rx_abort_intr_ctrl: u32,
    pub ed_sample_mode: u8,
    pub cca_mode: u8,
    pub cca_ed_threshold: u8,
    pub freq: u8,
    pub tx_power: u8,
    pub hw_auto_ack_tx_en: bool,
    pub hw_auto_ack_rx_en: bool,
    pub hw_enhance_ack_tx_en: bool,
    pub pan_coordinator: bool,
    pub promiscuous_mode: bool,
    pub autopend_enhance: bool,
    pub multipan_mask: u8,
    pub sec_en: bool,
    pub rxon_delay: u16,
    pub inf_pan_id: [u32; 4],
    pub inf_short_addr: [u32; 4],
    pub inf_ext_addr: [u32; 8],
    pub txdma_armed: bool,
    pub rxdma_armed: bool,
    pub commands: Vec<u8>,
    pub coex_pti: CoexPriority,
    pub ack_pti: CoexPriority,
}

impl RegisterBlock {
    /// Reset state of the model. The channel register starts at the lowest
    /// channel's frequency word, matching the PAN Information Base default.
    pub fn new() -> (r: RegisterBlock)
        ensures
            r.event_en == 0,
            r.event_status == 0,
            r.tx_abort_interrupt_control == 0,
            r.rx_abort_intr_ctrl == 0,
            r.ed_sample_mode == 0,
            r.cca_mode == 0,
            r.cca_ed_threshold == 0,
            r.freq == 3,
            r.tx_power == 0,
            !r.hw_auto_ack_tx_en,
            !r.hw_auto_ack_rx_en,
            !r.hw_enhance_ack_tx_en,
            !r.pan_coordinator,
            !r.promiscuous_mode,
            !r.autopend_enhance,
            r.multipan_mask == 0,
            !r.sec_en,
            r.rxon_delay == 0,
            forall|i: int| 0 <= i < 4 ==> r.inf_pan_id@[i] == 0,
            forall|i: int| 0 <= i < 4 ==> r.inf_short_addr@[i] == 0,
            forall|i: int| 0 <= i < 8 ==> r.inf_ext_addr@[i] == 0,
            !r.txdma_armed,
            !r.rxdma_armed,
            r.commands@ == Seq::<u8>::empty(),
            r.coex_pti == CoexPriority::Idle,
            r.ack_pti == CoexPriority::Idle,
    {
        RegisterBlock {
            event_en: 0,
            event_status: 0,
            tx_abort_interrupt_control: 0,
            rx_abort_intr_ctrl: 0,
            ed_sample_mode: 0,
            cca_mode: 0,
            cca_ed_threshold: 0,
            freq: 3,
            tx_power: 0,
            hw_auto_ack_tx_en: false,
            hw_auto_ack_rx_en: false,
            hw_enhance_ack_tx_en: false,
            pan_coordinator: false,
            promiscuous_mode: false,
            autopend_enhance: false,
            multipan_mask: 0,
            sec_en: false,
            rxon_delay: 0,
            inf_pan_id: [0u32; 4],
            inf_short_addr: [0u32; 4],
            inf_ext_addr: [0u32; 8],
            txdma_armed: false,
            rxdma_armed: false,
            commands: Vec::new(),
            coex_pti: CoexPriority::Idle,
            ack_pti: CoexPriority::Idle,
        }
    }
}

/// All fields of `b` equal those of `a`, except the command record.
pub open spec fn same_regs_but_commands(a: RegisterBlock, b: RegisterBlock) -> bool {
    b == (RegisterBlock { commands: b.commands, ..a })
}

pub fn enable_events(regs: &mut RegisterBlock, events: u16)
    ensures
        *final(regs) == (RegisterBlock { event_en: old(regs).event_en | events, ..*old(regs) }),
{
    regs.event_en = regs.event_en | events;
}

pub fn disable_events(regs: &mut RegisterBlock, events: u16)
    ensures
        *final(regs) == (RegisterBlock { event_en: old(regs).event_en & !events, ..*old(regs) }),
{
    regs.event_en = regs.event_en & !events;
}

pub fn enable_tx_abort_events(regs: &mut RegisterBlock, events: u32)
    ensures
        *final(regs) == (RegisterBlock {
            tx_abort_interrupt_control: old(regs).tx_abort_interrupt_control | events,
            ..*old(regs)
        }),
{
    regs.tx_abort_interrupt_control = regs.tx_abort_interrupt_control | events;
}

pub fn enable_rx_abort_events(regs: &mut RegisterBlock, events: u32)
    ensures
        *final(regs) == (RegisterBlock {
            rx_abort_intr_ctrl: old(regs).rx_abort_intr_ctrl | events,
            ..*old(regs)
        }),
{
    regs.rx_abort_intr_ctrl = regs.rx_abort_intr_ctrl | events;
}

pub fn set_ed_sample_mode(regs: &mut RegisterBlock, ed_sample_mode: Ieee802154EdSampleMode)
    ensures
        *final(regs) == (RegisterBlock {
            ed_sample_mode: ed_sample_mode.spec_code(),
            ..*old(regs)
        }),
{
    regs.ed_sample_mode = ed_sample_mode.code();
}

pub fn set_rx_on_delay(regs: &mut RegisterBlock, delay: u16)
    ensures
        *final(regs) == (RegisterBlock { rxon_delay: delay, ..*old(regs) }),
{
    regs.rxon_delay = delay;
}

/// Point the TX DMA address register at the driver's transmit buffer.
pub fn set_tx_addr(regs: &mut RegisterBlock)
    ensures
        *final(regs) == (RegisterBlock { txdma_armed: true, ..*old(regs) }),
{
    regs.txdma_armed = true;
}

/// Point the RX DMA address register at the driver's receive buffer.
pub fn set_rx_addr(regs: &mut RegisterBlock)
    ensures
        *final(regs) == (RegisterBlock { rxdma_armed: true, ..*old(regs) }),
{
    regs.rxdma_armed = true;
}

/// Write an opcode to the command register; the sequencer starts the
/// operation immediately.
pub fn set_cmd(regs: &mut RegisterBlock, cmd: Command)
    ensures
        final(regs).commands@ == old(regs).commands@.push(cmd.spec_opcode()),
        same_regs_but_commands(*old(regs), *final(regs)),
{
    let opcode = cmd.opcode();
    regs.commands.push(opcode);
}

pub fn set_freq(regs: &mut RegisterBlock, freq: u8)
    ensures
        *final(regs) == (RegisterBlock { freq: freq, ..*old(regs) }),
{
    regs.freq = freq;
}

pub fn get_freq(regs: &RegisterBlock) -> (r: u8)
    ensures
        r == regs.freq,
{
    regs.freq
}

pub fn set_power(regs: &mut RegisterBlock, power: u8)
    ensures
        *final(regs) == (RegisterBlock { tx_power: power, ..*old(regs) }),
{
    regs.tx_power = power;
}

/// The multipan enable mask occupies four bits of the control register.
pub fn set_multipan_enable_mask(regs: &mut RegisterBlock, mask: u8)
    ensures
        *final(regs) == (RegisterBlock { multipan_mask: mask & 0x0F, ..*old(regs) }),
{
    regs.multipan_mask = mask & 0x0F;
}

pub fn set_multipan_panid(regs: &mut RegisterBlock, index: usize, panid: u16)
    requires
        index < 4,
    ensures
        final(regs).inf_pan_id@ == old(regs).inf_pan_id@.update(index as int, panid as u32),
        *final(regs) == (RegisterBlock { inf_pan_id: final(regs).inf_pan_id, ..*old(regs) }),
{
    regs.inf_pan_id[index] = panid as u32;
}

pub fn set_multipan_short_addr(regs: &mut RegisterBlock, index: usize, value: u16)
    requires
        index < 4,
    ensures
        final(regs).inf_short_addr@ == old(regs).inf_short_addr@.update(
            index as int,
            value as u32,
        ),
        *final(regs) == (RegisterBlock {
            inf_short_addr: final(regs).inf_short_addr,
            ..*old(regs)
        }),
{
    regs.inf_short_addr[index] = value as u32;
}

/// Little-endian 32-bit word formed from four bytes.
pub open spec fn spec_le_word(b0: u8, b1: u8, b2: u8, b3: u8) -> u32 {
    (b0 as u32) | ((b1 as u32) << 8) | ((b2 as u32) << 16) | ((b3 as u32) << 24)
}

/// An extended address is written as two little-endian 32-bit halves into
/// consecutive words of the extended address register bank.
pub fn set_multipan_ext_addr(regs: &mut RegisterBlock, index: usize, ext_addr: &[u8; 8])
    requires
        index < 4,
    ensures
        final(regs).inf_ext_addr@ == old(regs).inf_ext_addr@.update(
            2 * index as int,
            spec_le_word(ext_addr@[0], ext_addr@[1], ext_addr@[2], ext_addr@[3]),
        ).update(
            2 * index as int + 1,
            spec_le_word(ext_addr@[4], ext_addr@[5], ext_addr@[6], ext_addr@[7]),
        ),
        *final(regs) == (RegisterBlock { inf_ext_addr: final(regs).inf_ext_addr, ..*old(regs) }),
{
    let word0 = (ext_addr[0] as u32) | ((ext_addr[1] as u32) << 8) | ((ext_addr[2] as u32) << 16)
        | ((ext_addr[3] as u32) << 24);
    let word1 = (ext_addr[4] as u32) | ((ext_addr[5] as u32) << 8) | ((ext_addr[6] as u32) << 16)
        | ((ext_addr[7] as u32) << 24);
    regs.inf_ext_addr[2 * index] = word0;
    regs.inf_ext_addr[2 * index + 1] = word1;
}

pub fn set_cca_mode_code(regs: &mut RegisterBlock, cca_mode: u8)
    ensures
        *final(regs) == (RegisterBlock { cca_mode: cca_mode, ..*old(regs) }),
{
    regs.cca_mode = cca_mode;
}

pub fn set_cca_threshold(regs: &mut RegisterBlock, cca_threshold: i8)
    ensures
        *final(regs) == (RegisterBlock { cca_ed_threshold: cca_threshold as u8, ..*old(regs) }),
{
    regs.cca_ed_threshold = cca_threshold as u8;
}

pub fn set_tx_auto_ack(regs: &mut RegisterBlock, enable: bool)
    ensures
        *final(regs) == (RegisterBlock { hw_auto_ack_tx_en: enable, ..*old(regs) }),
{
    regs.hw_auto_ack_tx_en = enable;
}

pub fn get_tx_auto_ack(regs: &RegisterBlock) -> (r: bool)
    ensures
        r == regs.hw_auto_ack_tx_en,
{
    regs.hw_auto_ack_tx_en
}

pub fn set_rx_auto_ack(regs: &mut RegisterBlock, enable: bool)
    ensures
        *final(regs) == (RegisterBlock { hw_auto_ack_rx_en: enable, ..*old(regs) }),
{
    regs.hw_auto_ack_rx_en = enable;
}

pub fn set_tx_enhance_ack(regs: &mut RegisterBlock, enable: bool)
    ensures
        *final(regs) == (RegisterBlock { hw_enhance_ack_tx_en: enable, ..*old(regs) }),
{
    regs.hw_enhance_ack_tx_en = enable;
}

pub fn get_tx_enhance_ack(regs: &RegisterBlock) -> (r: bool)
    ensures
        r == regs.hw_enhance_ack_tx_en,
{
    regs.hw_enhance_ack_tx_en
}

pub fn set_coordinator(regs: &mut RegisterBlock, enable: bool)
    ensures
        *final(regs) == (RegisterBlock { pan_coordinator: enable, ..*old(regs) }),
{
    regs.pan_coordinator = enable;
}

pub fn set_promiscuous(regs: &mut RegisterBlock, enable: bool)
    ensures
        *final(regs) == (RegisterBlock { promiscuous_mode: enable, ..*old(regs) }),
{
    regs.promiscuous_mode = enable;
}

pub fn set_pending_mode(regs: &mut RegisterBlock, enable: bool)
    ensures
        *final(regs) == (RegisterBlock { autopend_enhance: enable, ..*old(regs) }),
{
    regs.autopend_enhance = enable;
}

/// Read the latched event-status bitmap.
pub fn get_events(regs: &RegisterBlock) -> (r: u16)
    ensures
        r == regs.event_status,
{
    regs.event_status
}

/// Clear the given bits of the latched event-status bitmap.
pub fn clear_events(regs: &mut RegisterBlock, events: u16)
    ensures
        *final(regs) == (RegisterBlock {
            event_status: old(regs).event_status & !events,
            ..*old(regs)
        }),
{
    regs.event_status = regs.event_status & !events;
}

pub fn set_transmit_security(regs: &mut RegisterBlock, enable: bool)
    ensures
        *final(regs) == (RegisterBlock { sec_en: enable, ..*old(regs) }),
{
    regs.sec_en = enable;
}

} // verus!
