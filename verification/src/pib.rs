//! PAN Information Base: the driver's in-memory mirror of all radio
//! configuration fields, and the operation that pushes every field to the
//! hardware register block before a command is issued.

use vstd::prelude::*;

use crate::hal::{
    set_cca_mode_code, set_cca_threshold, set_coordinator, set_freq, set_multipan_enable_mask,
    set_multipan_ext_addr, set_multipan_panid, set_multipan_short_addr, set_pending_mode,
    set_power, set_promiscuous, set_rx_auto_ack, set_tx_auto_ack, set_tx_enhance_ack,
    spec_le_word, RegisterBlock,
};
use crate::util::{
    channel_to_freq, ieee802154_txpower_convert, spec_channel_to_freq, spec_txpower_code,
};

verus! {

pub const IEEE802154_MULTIPAN_MAX: usize = 4;

pub const IEEE802154_FRAME_EXT_ADDR_SIZE: usize = 8;

pub const IEEE802154_MULTIPAN_0: u8 = 0;

pub const CONFIG_IEEE802154_CCA_THRESHOLD: i8 = 1;

/// Auto-pending policy; hardware auto-pending is enabled only in the
/// enhanced mode.
#[derive(Debug, Clone, Copy, PartialEq, Eq, Structural)]
pub enum Ieee802154PendingMode {
    Ieee802154AutoPendingDisable,
    Ieee802154AutoPendingEnable,
    Ieee802154AutoPendingEnhanced,
    Ieee802154AutoPendingZigbee,
}

/// Clear channel assessment mode.
#[derive(Debug, Clone, Copy, PartialEq, Eq, Structural)]
pub enum Ieee802154CcaMode {
    Ieee802154CcaModeCarrier,
    Ieee802154CcaModeEd,
    Ieee802154CcaModeCarrierOrEd,
    Ieee802154CcaModeCarrierAndEd,
}

impl Ieee802154CcaMode {
    pub open spec fn spec_code(self) -> u8 {
        match self {
            Ieee802154CcaMode::Ieee802154CcaModeCarrier => 0,
            Ieee802154CcaMode::Ieee802154CcaModeEd => 1,
            Ieee802154CcaMode::Ieee802154CcaModeCarrierOrEd => 2,
            Ieee802154CcaMode::Ieee802154CcaModeCarrierAndEd => 3,
        }
    }

    pub fn code(self) -> (r: u8)
        ensures
            r == self.spec_code(),
    {
        match self {
            Ieee802154CcaMode::Ieee802154CcaModeCarrier => 0,
            Ieee802154CcaMode::Ieee802154CcaModeEd => 1,
            Ieee802154CcaMode::Ieee802154CcaModeCarrierOrEd => 2,
            Ieee802154CcaMode::Ieee802154CcaModeCarrierAndEd => 3,
        }
    }
}

/// The PAN Information Base. One instance lives in the driver for the
/// whole process; the radio never reads it directly, it is pushed to the
/// register block by [`ieee802154_pib_update`].
#[derive(Debug, Clone, Copy)]
pub struct Ieee802154Pib {
    pub auto_ack_tx: bool,
    pub auto_ack_rx: bool,
    pub enhance_ack_tx: bool,
    pub promiscuous: bool,
    pub coordinator: bool,
    pub rx_when_idle: bool,
    pub txpower: i8,
    pub channel: u8,
    pub pending_mode: Ieee802154PendingMode,
    pub multipan_mask: u8,
    pub panid: [u16; IEEE802154_MULTIPAN_MAX],
    pub short_addr: [u16; IEEE802154_MULTIPAN_MAX],
    pub ext_addr: [[u8; IEEE802154_FRAME_EXT_ADDR_SIZE]; IEEE802154_MULTIPAN_MAX],
    pub cca_threshold: i8,
    pub cca_mode: Ieee802154CcaMode,
}

/// A channel of the 2.4 GHz band, the only inputs the frequency
/// derivation is defined for.
pub open spec fn spec_pib_channel_ok(pib: Ieee802154Pib) -> bool {
    11 <= pib.channel <= 26
}

pub fn ieee802154_pib_init() -> (pib: Ieee802154Pib)
    ensures
        pib.auto_ack_tx,
        pib.auto_ack_rx,
        pib.enhance_ack_tx,
        !pib.coordinator,
        pib.promiscuous,
        !pib.rx_when_idle,
        pib.txpower == 10,
        pib.channel == 11,
        pib.pending_mode is Ieee802154AutoPendingDisable,
        pib.multipan_mask == 1,
        forall|i: int| 0 <= i < 4 ==> pib.panid@[i] == 0,
        forall|i: int| 0 <= i < 4 ==> pib.short_addr@[i] == 0,
        forall|i: int, j: int| 0 <= i < 4 && 0 <= j < 8 ==> pib.ext_addr@[i]@[j] == 0xff,
        pib.cca_threshold == CONFIG_IEEE802154_CCA_THRESHOLD,
        pib.cca_mode is Ieee802154CcaModeEd,
        spec_pib_channel_ok(pib),
{
    broadcast use vstd::array::group_array_axioms;

    let mask: u8 = 1 << IEEE802154_MULTIPAN_0;
    proof {
        assert(1u8 << 0 == 1) by (bit_vector);
    }
    Ieee802154Pib {
        auto_ack_tx: true,
        auto_ack_rx: true,
        enhance_ack_tx: true,
        coordinator: false,
        promiscuous: true,
        rx_when_idle: false,
        txpower: 10,
        channel: 11,
        pending_mode: Ieee802154PendingMode::Ieee802154AutoPendingDisable,
        multipan_mask: mask,
        panid: [0u16; IEEE802154_MULTIPAN_MAX],
        short_addr: [0u16; IEEE802154_MULTIPAN_MAX],
        ext_addr: [[0xffu8; IEEE802154_FRAME_EXT_ADDR_SIZE]; IEEE802154_MULTIPAN_MAX],
        cca_threshold: CONFIG_IEEE802154_CCA_THRESHOLD,
        cca_mode: Ieee802154CcaMode::Ieee802154CcaModeEd,
    }
}

pub fn ieee802154_pib_get_rx_when_idle(pib: &Ieee802154Pib) -> (r: bool)
    ensures
        r == pib.rx_when_idle,
{
    pib.rx_when_idle
}

/// Whether a multipan slot is active in the enable mask.
pub open spec fn spec_slot_enabled(mask: u8, i: int) -> bool {
    mask & (1u8 << (i as usize)) != 0
}

/// The identity registers of slot `i` of `b` hold the values of slot `i`
/// of the PIB.
pub open spec fn spec_slot_pushed(pib: Ieee802154Pib, b: RegisterBlock, i: int) -> bool {
    &&& b.inf_pan_id@[i] == pib.panid@[i] as u32
    &&& b.inf_short_addr@[i] == pib.short_addr@[i] as u32
    &&& b.inf_ext_addr@[2 * i] == spec_le_word(
        pib.ext_addr@[i]@[0],
        pib.ext_addr@[i]@[1],
        pib.ext_addr@[i]@[2],
        pib.ext_addr@[i]@[3],
    )
    &&& b.inf_ext_addr@[2 * i + 1] == spec_le_word(
        pib.ext_addr@[i]@[4],
        pib.ext_addr@[i]@[5],
        pib.ext_addr@[i]@[6],
        pib.ext_addr@[i]@[7],
    )
}

/// The identity registers of slot `i` are the same in `a` and `b`.
pub open spec fn spec_slot_unchanged(a: RegisterBlock, b: RegisterBlock, i: int) -> bool {
    &&& b.inf_pan_id@[i] == a.inf_pan_id@[i]
    &&& b.inf_short_addr@[i] == a.inf_short_addr@[i]
    &&& b.inf_ext_addr@[2 * i] == a.inf_ext_addr@[2 * i]
    &&& b.inf_ext_addr@[2 * i + 1] == a.inf_ext_addr@[2 * i + 1]
}

/// Write the PAN ID, short address and extended address of every active
/// multipan slot into the slot's identity registers; inactive slots are
/// left alone.
pub fn ieee802154_set_multipan_hal(pib: &Ieee802154Pib, regs: &mut RegisterBlock)
    ensures
        forall|i: int|
            0 <= i < 4 ==> if #[trigger] spec_slot_enabled(pib.multipan_mask, i) {
                spec_slot_pushed(*pib, *final(regs), i)
            } else {
                spec_slot_unchanged(*old(regs), *final(regs), i)
            },
        *final(regs) == (RegisterBlock {
            inf_pan_id: final(regs).inf_pan_id,
            inf_short_addr: final(regs).inf_short_addr,
            inf_ext_addr: final(regs).inf_ext_addr,
            ..*old(regs)
        }),
{
    broadcast use vstd::array::group_array_axioms;

    let mut index: usize = 0;
    while index < IEEE802154_MULTIPAN_MAX
        invariant
            index <= 4,
            forall|i: int|
                0 <= i < index ==> if #[trigger] spec_slot_enabled(pib.multipan_mask, i) {
                    spec_slot_pushed(*pib, *regs, i)
                } else {
                    spec_slot_unchanged(*old(regs), *regs, i)
                },
            forall|i: int| index <= i < 4 ==> spec_slot_unchanged(*old(regs), *regs, i),
            *regs == (RegisterBlock {
                inf_pan_id: regs.inf_pan_id,
                inf_short_addr: regs.inf_short_addr,
                inf_ext_addr: regs.inf_ext_addr,
                ..*old(regs)
            }),
        decreases 4 - index,
    {
        let ghost regs0 = *regs;
        if (pib.multipan_mask & (1u8 << index)) != 0 {
            set_multipan_panid(regs, index, pib.panid[index]);
            set_multipan_short_addr(regs, index, pib.short_addr[index]);
            set_multipan_ext_addr(regs, index, &pib.ext_addr[index]);
        }
        proof {
            assert forall|i: int|
                0 <= i < 4 && i != index implies spec_slot_unchanged(regs0, *regs, i) by {
                assert(2 * i != 2 * (index as int) && 2 * i + 1 != 2 * (index as int) + 1);
            }
            assert forall|i: int|
                index + 1 <= i < 4 implies spec_slot_unchanged(*old(regs), *regs, i) by {
                assert(spec_slot_unchanged(*old(regs), regs0, i));
                assert(spec_slot_unchanged(regs0, *regs, i));
            }
        }
        index += 1;
    }
}

/// Every register the PIB covers mirrors the corresponding PIB field in
/// `new_regs`; the identity registers of inactive multipan slots keep
/// their values from `old_regs`.
pub open spec fn spec_pib_mirrored(
    pib: Ieee802154Pib,
    old_regs: RegisterBlock,
    new_regs: RegisterBlock,
) -> bool {
    &&& new_regs.freq == spec_channel_to_freq(pib.channel as int)
    &&& new_regs.tx_power == spec_txpower_code(pib.txpower as int)
    &&& new_regs.multipan_mask == pib.multipan_mask & 0x0F
    &&& forall|i: int|
        0 <= i < 4 ==> if #[trigger] spec_slot_enabled(pib.multipan_mask, i) {
            spec_slot_pushed(pib, new_regs, i)
        } else {
            spec_slot_unchanged(old_regs, new_regs, i)
        }
    &&& new_regs.cca_mode == pib.cca_mode.spec_code()
    &&& new_regs.cca_ed_threshold == pib.cca_threshold as u8
    &&& new_regs.hw_auto_ack_tx_en == pib.auto_ack_tx
    &&& new_regs.hw_auto_ack_rx_en == pib.auto_ack_rx
    &&& new_regs.hw_enhance_ack_tx_en == pib.enhance_ack_tx
    &&& new_regs.pan_coordinator == pib.coordinator
    &&& new_regs.promiscuous_mode == pib.promiscuous
    &&& new_regs.autopend_enhance == (pib.pending_mode
        is Ieee802154AutoPendingEnhanced)
}

/// The event masks, abort masks, sampling mode and RX-on delay of `b` are
/// those of `a`; no PIB push and no command issue touches them.
pub open spec fn spec_masks_unchanged(a: RegisterBlock, b: RegisterBlock) -> bool {
    &&& b.event_en == a.event_en
    &&& b.event_status == a.event_status
    &&& b.tx_abort_interrupt_control == a.tx_abort_interrupt_control
    &&& b.rx_abort_intr_ctrl == a.rx_abort_intr_ctrl
    &&& b.ed_sample_mode == a.ed_sample_mode
    &&& b.rxon_delay == a.rxon_delay
}

/// All configuration registers of `new_regs` mirror `pib`, and the fields
/// the PIB does not cover keep their values from `old_regs`.
pub open spec fn spec_pib_pushed(
    pib: Ieee802154Pib,
    old_regs: RegisterBlock,
    new_regs: RegisterBlock,
) -> bool {
    &&& spec_pib_mirrored(pib, old_regs, new_regs)
    &&& spec_masks_unchanged(old_regs, new_regs)
    &&& new_regs.sec_en == old_regs.sec_en
    &&& new_regs.txdma_armed == old_regs.txdma_armed
    &&& new_regs.rxdma_armed == old_regs.rxdma_armed
    &&& new_regs.commands == old_regs.commands
    &&& new_regs.coex_pti == old_regs.coex_pti
    &&& new_regs.ack_pti == old_regs.ack_pti
}

/// Push every PIB field to the register block, in a fixed order:
/// frequency, power, multipan mask and slots, CCA mode and threshold,
/// acknowledgment enables, coordinator, promiscuous, auto-pending.
///
/// The driver calls this before every transmit or receive command, so the
/// hardware is always consistent with the PIB when a command starts.
pub fn ieee802154_pib_update(pib: &Ieee802154Pib, regs: &mut RegisterBlock)
    requires
        spec_pib_channel_ok(*pib),
    ensures
        spec_pib_pushed(*pib, *old(regs), *final(regs)),
{
    set_freq(regs, channel_to_freq(pib.channel));
    set_power(regs, ieee802154_txpower_convert(pib.txpower));

    set_multipan_enable_mask(regs, pib.multipan_mask);
    ieee802154_set_multipan_hal(pib, regs);

    set_cca_mode_code(regs, pib.cca_mode.code());
    set_cca_threshold(regs, pib.cca_threshold);

    set_tx_auto_ack(regs, pib.auto_ack_tx);
    set_rx_auto_ack(regs, pib.auto_ack_rx);
    set_tx_enhance_ack(regs, pib.enhance_ack_tx);

    set_coordinator(regs, pib.coordinator);
    set_promiscuous(regs, pib.promiscuous);
    set_pending_mode(
        regs,
        matches!(pib.pending_mode, Ieee802154PendingMode::Ieee802154AutoPendingEnhanced),
    );
}

} // verus!
