//! Pure conversions between logical radio parameters and hardware words:
//! channel number to frequency word and back, TX power in dBm to the
//! hardware power code, and RSSI to LQI; and the mapping from the
//! driver's transmit/receive scene to the coexistence priority class.

use vstd::prelude::*;

use crate::hal::{CoexPriority, RegisterBlock};

verus! {

/// The eight bytes of a 64-bit value, most significant first.
pub open spec fn spec_u64_be_bytes(v: u64) -> Seq<u8> {
    seq![
        ((v >> 56) & 0xFF) as u8,
        ((v >> 48) & 0xFF) as u8,
        ((v >> 40) & 0xFF) as u8,
        ((v >> 32) & 0xFF) as u8,
        ((v >> 24) & 0xFF) as u8,
        ((v >> 16) & 0xFF) as u8,
        ((v >> 8) & 0xFF) as u8,
        (v & 0xFF) as u8,
    ]
}

/// Split a 64-bit value into its bytes, most significant first.
pub fn u64_to_be_bytes(v: u64) -> (r: [u8; 8])
    ensures
        r@ == spec_u64_be_bytes(v),
{
    broadcast use vstd::array::group_array_axioms;

    let r: [u8; 8] = [
        ((v >> 56) & 0xFF) as u8,
        ((v >> 48) & 0xFF) as u8,
        ((v >> 40) & 0xFF) as u8,
        ((v >> 32) & 0xFF) as u8,
        ((v >> 24) & 0xFF) as u8,
        ((v >> 16) & 0xFF) as u8,
        ((v >> 8) & 0xFF) as u8,
        (v & 0xFF) as u8,
    ];
    proof {
        assert(r@ =~= spec_u64_be_bytes(v));
    }
    r
}

/// The radio activity scene, as signalled to the coexistence arbiter.
#[derive(Debug, Clone, Copy, PartialEq, Eq, Structural)]
pub enum Ieee802154TxrxScene {
    Ieee802154SceneIdle,
    Ieee802154SceneTx,
    Ieee802154SceneRx,
    Ieee802154SceneTxAt,
    Ieee802154SceneRxAt,
}

/// Priority class for a scene: idle is lowest, plain transmit and receive
/// are low, timed transmit and receive are elevated.
pub open spec fn spec_scene_pti(scene: Ieee802154TxrxScene) -> CoexPriority {
    match scene {
        Ieee802154TxrxScene::Ieee802154SceneIdle => CoexPriority::Idle,
        Ieee802154TxrxScene::Ieee802154SceneTx => CoexPriority::Low,
        Ieee802154TxrxScene::Ieee802154SceneRx => CoexPriority::Low,
        Ieee802154TxrxScene::Ieee802154SceneTxAt => CoexPriority::Middle,
        Ieee802154TxrxScene::Ieee802154SceneRxAt => CoexPriority::Middle,
    }
}

/// Signal the coexistence priority class for the given scene.
pub fn ieee802154_set_txrx_pti(regs: &mut RegisterBlock, txrx_scene: Ieee802154TxrxScene)
    ensures
        *final(regs) == (RegisterBlock { coex_pti: spec_scene_pti(txrx_scene), ..*old(regs) }),
{
    match txrx_scene {
        Ieee802154TxrxScene::Ieee802154SceneIdle => {
            regs.coex_pti = CoexPriority::Idle;
        },
        Ieee802154TxrxScene::Ieee802154SceneTx | Ieee802154TxrxScene::Ieee802154SceneRx => {
            regs.coex_pti = CoexPriority::Low;
        },
        Ieee802154TxrxScene::Ieee802154SceneTxAt | Ieee802154TxrxScene::Ieee802154SceneRxAt => {
            regs.coex_pti = CoexPriority::Middle;
        },
    }
}

/// Frequency word programmed into the channel register for a 802.15.4
/// channel (channels 11 through 26 map to words 3, 8, ..., 78).
pub open spec fn spec_channel_to_freq(channel: int) -> int {
    (channel - 11) * 5 + 3
}

/// Channel number recovered from a frequency word.
pub open spec fn spec_freq_to_channel(freq: int) -> int {
    (freq - 3) / 5 + 11
}

pub fn channel_to_freq(channel: u8) -> (freq: u8)
    requires
        11 <= channel <= 26,
    ensures
        freq == spec_channel_to_freq(channel as int),
        3 <= freq <= 78,
{
    (channel - 11) * 5 + 3
}

pub fn freq_to_channel(freq: u8) -> (channel: u8)
    requires
        freq >= 3,
    ensures
        channel == spec_freq_to_channel(freq as int),
{
    (freq - 3) / 5 + 11
}

/// Round trip: converting a channel to its frequency word and back yields
/// the same channel, for every channel of the 2.4 GHz band.
pub proof fn lemma_channel_freq_roundtrip(channel: int)
    requires
        11 <= channel <= 26,
    ensures
        spec_freq_to_channel(spec_channel_to_freq(channel)) == channel,
{
    assert(((channel - 11) * 5) / 5 == channel - 11) by (nonlinear_arith);
}

/// Hardware power code for a TX power in dBm: saturates at 15 above 13 dBm
/// and at 0 below -32 dBm, and is linear (3 dBm per step) in between.
pub open spec fn spec_txpower_code(txpower: int) -> int {
    if txpower > 13 {
        15
    } else if txpower < -32 {
        0
    } else {
        (txpower + 32) / 3
    }
}

pub fn ieee802154_txpower_convert(txpower: i8) -> (code: u8)
    ensures
        code == spec_txpower_code(txpower as int),
        code <= 15,
{
    if txpower > 13 {
        15
    } else if txpower < -32 {
        0
    } else {
        ((txpower + 32) / 3) as u8
    }
}

/// The power mapping is monotonic: more requested dBm never yields a
/// smaller hardware code.
pub proof fn lemma_txpower_code_monotonic(a: int, b: int)
    requires
        a <= b,
    ensures
        spec_txpower_code(a) <= spec_txpower_code(b),
{
    if b > 13 {
        if -32 <= a <= 13 {
            vstd::arithmetic::div_mod::lemma_div_is_ordered(a + 32, 45, 3);
        }
    } else if a < -32 {
        if -32 <= b {
            vstd::arithmetic::div_mod::lemma_div_is_ordered(0, b + 32, 3);
        }
    } else {
        vstd::arithmetic::div_mod::lemma_div_is_ordered(a + 32, b + 32, 3);
    }
}

/// Link quality indicator derived from RSSI: 0 at or below -80 dBm, 255 at
/// or above -30 dBm, linear in between.
pub open spec fn spec_rssi_to_lqi(rssi: int) -> int {
    if rssi < -80 {
        0
    } else if rssi > -30 {
        255
    } else {
        ((rssi + 80) * 255) / 50
    }
}

pub fn rssi_to_lqi(rssi: i8) -> (lqi: u8)
    ensures
        lqi == spec_rssi_to_lqi(rssi as int),
{
    if rssi < -80 {
        0
    } else if rssi > -30 {
        255
    } else {
        let scaled: u32 = ((rssi as i32 + 80) as u32) * 255;
        proof {
            assert(0 <= rssi + 80 <= 50);
            assert(((rssi + 80) * 255) / 50 <= 255) by (nonlinear_arith)
                requires 0 <= rssi + 80 <= 50;
        }
        (scaled / 50) as u8
    }
}

/// The LQI mapping is monotonic in RSSI.
pub proof fn lemma_rssi_to_lqi_monotonic(a: int, b: int)
    requires
        a <= b,
    ensures
        spec_rssi_to_lqi(a) <= spec_rssi_to_lqi(b),
{
    if -80 <= a <= -30 && -80 <= b <= -30 {
        assert((a + 80) * 255 <= (b + 80) * 255) by (nonlinear_arith)
            requires a <= b;
        vstd::arithmetic::div_mod::lemma_div_is_ordered((a + 80) * 255, (b + 80) * 255, 50);
    } else if -80 <= a <= -30 {
        assert((a + 80) * 255 <= 50int * 255) by (nonlinear_arith)
            requires a <= -30;
        vstd::arithmetic::div_mod::lemma_div_is_ordered((a + 80) * 255, 50int * 255, 50);
    } else if -80 <= b <= -30 {
        assert(0 <= (b + 80) * 255) by (nonlinear_arith)
            requires -80 <= b;
        vstd::arithmetic::div_mod::lemma_div_is_ordered(0, (b + 80) * 255, 50);
    }
}

} // verus!
