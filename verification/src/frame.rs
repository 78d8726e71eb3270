//! Frames: the outer length-prefixed buffer layout the driver owns, the
//! byte-level header tests the interrupt handler needs, and the bridge to
//! the external wire-format codec that parses and serializes frame bodies.

use byte::TryRead;
use vstd::prelude::*;

use crate::Error;

verus! {

/// Size of the raw frame buffers: a length byte, up to 127 frame bytes,
/// and the byte hardware overwrites with RSSI.
pub const FRAME_SIZE: usize = 129;

/// Offset of the byte holding the acknowledgment-request bit.
pub const IEEE802154_FRAME_AR_OFFSET: usize = 1;

/// Acknowledgment-request bit within its byte.
pub const IEEE802154_FRAME_AR_BIT: u8 = 0x20;

/// Offset of the byte holding the frame version field.
pub const IEEE802154_FRAME_VERSION_OFFSET: usize = 2;

/// Frame version field within its byte.
pub const IEEE802154_FRAME_VERSION_MASK: u8 = 0x30;

/// Frame version of IEEE 802.15.4-2006 and 2011 ("legacy").
pub const IEEE802154_FRAME_VERSION_1: u8 = 0x10;

/// Frame version of IEEE 802.15.4-2015 ("enhanced").
pub const IEEE802154_FRAME_VERSION_2: u8 = 0x20;

/// The acknowledgment-request bit of a raw frame.
pub open spec fn spec_frame_is_ack_required(frame: Seq<u8>) -> bool {
    frame[IEEE802154_FRAME_AR_OFFSET as int] & IEEE802154_FRAME_AR_BIT != 0
}

pub fn ieee802154_frame_is_ack_required(frame: &[u8]) -> (r: bool)
    requires
        frame@.len() >= 2,
    ensures
        r == spec_frame_is_ack_required(frame@),
{
    (frame[IEEE802154_FRAME_AR_OFFSET] & IEEE802154_FRAME_AR_BIT) != 0
}

/// The frame version field of a raw frame, still in place within its byte.
pub open spec fn spec_frame_version(frame: Seq<u8>) -> u8 {
    frame[IEEE802154_FRAME_VERSION_OFFSET as int] & IEEE802154_FRAME_VERSION_MASK
}

pub fn ieee802154_frame_get_version(frame: &[u8]) -> (r: u8)
    requires
        frame@.len() >= 3,
    ensures
        r == spec_frame_version(frame@),
{
    frame[IEEE802154_FRAME_VERSION_OFFSET] & IEEE802154_FRAME_VERSION_MASK
}

#[verifier::external_type_specification]
#[verifier::external_body]
pub struct ExHeader(ieee802154::mac::Header);

#[verifier::external_type_specification]
#[verifier::external_body]
pub struct ExFrameContent(ieee802154::mac::FrameContent);

/// An outbound or decoded frame: the codec's header and content, the
/// payload bytes, and the two-byte footer.
#[derive(Debug)]
pub struct Frame {
    pub header: ieee802154::mac::Header,
    pub content: ieee802154::mac::FrameContent,
    pub payload: Vec<u8>,
    pub footer: [u8; 2],
}

/// A decoded received frame together with the channel it arrived on and
/// the link quality derived from the hardware-reported RSSI.
#[derive(Debug)]
pub struct ReceivedFrame {
    pub frame: Frame,
    pub channel: u8,
    pub rssi: i8,
    pub lqi: u8,
}

/// What the external codec decodes a footer-less frame body into: header,
/// content and payload on success, or the error class on failure. The
/// codec's result is a function of the bytes alone; nothing further is
/// assumed about it.
pub uninterp spec fn body_decode(bytes: Seq<u8>) -> Result<
    (ieee802154::mac::Header, ieee802154::mac::FrameContent, Seq<u8>),
    Error,
>;

/// Relies on `ieee802154::mac::Frame::try_read` (via `byte::TryRead`) with
/// the footer left to the caller: it parses header, content and payload
/// from the body bytes, or reports `byte::Error::Incomplete` /
/// `BadOffset` (out of range) or `BadInput` (malformed content), which are
/// classified here one variant arm at a time.
#[verifier::external_body]
fn try_read_body(bytes: &[u8]) -> (r: Result<
    (ieee802154::mac::Header, ieee802154::mac::FrameContent, Vec<u8>),
    Error,
>)
    ensures
        match (r, body_decode(bytes@)) {
            (Ok(p), Ok(d)) => p.0 == d.0 && p.1 == d.1 && p.2@ == d.2,
            (Err(a), Err(b)) => a == b,
            _ => false,
        },
{
    match ieee802154::mac::Frame::try_read(bytes, ieee802154::mac::FooterMode::None) {
        Ok((f, _)) => Ok((f.header, f.content, f.payload.to_vec())),
        Err(byte::Error::Incomplete) | Err(byte::Error::BadOffset(_)) => Err(Error::Incomplete),
        Err(byte::Error::BadInput { .. }) => Err(Error::BadInput),
    }
}

/// Decoding a full frame slice: the last two bytes are the footer, the
/// rest is the body handed to the codec; a slice too short to hold a
/// footer is incomplete.
pub open spec fn spec_frame_decode(bytes: Seq<u8>) -> Result<
    (ieee802154::mac::Header, ieee802154::mac::FrameContent, Seq<u8>, Seq<u8>),
    Error,
> {
    if bytes.len() < 2 {
        Err(Error::Incomplete)
    } else {
        match body_decode(bytes.subrange(0, bytes.len() - 2)) {
            Ok(p) => Ok((p.0, p.1, p.2, bytes.subrange(bytes.len() - 2, bytes.len() as int))),
            Err(e) => Err(e),
        }
    }
}

/// Decode one raw frame slice (body followed by two footer bytes) into a
/// [`Frame`].
pub fn decode_frame(bytes: &[u8]) -> (r: Result<Frame, Error>)
    ensures
        match (r, spec_frame_decode(bytes@)) {
            (Ok(f), Ok(d)) => f.header == d.0 && f.content == d.1 && f.payload@ == d.2
                && f.footer@ == d.3,
            (Err(a), Err(b)) => a == b,
            _ => false,
        },
{
    broadcast use vstd::array::group_array_axioms;

    let n = bytes.len();
    if n < 2 {
        return Err(Error::Incomplete);
    }
    let body = vstd::slice::slice_subrange(bytes, 0, n - 2);
    match try_read_body(body) {
        Ok((header, content, payload)) => {
            let footer: [u8; 2] = [bytes[n - 2], bytes[n - 1]];
            proof {
                assert(footer@ =~= bytes@.subrange(n - 2, n as int));
            }
            Ok(Frame { header, content, payload, footer })
        },
        Err(e) => Err(e),
    }
}

/// What the external codec serializes a frame to: the frame bytes (header,
/// content, payload, footer, in order), or nothing where the frame does
/// not fit the transmit buffer. The result is a function of the frame
/// fields alone; nothing further is assumed about it.
pub uninterp spec fn frame_encode(
    header: ieee802154::mac::Header,
    content: ieee802154::mac::FrameContent,
    payload: Seq<u8>,
    footer: Seq<u8>,
) -> Option<Seq<u8>>;

/// A frame the codec can serialize into the transmit buffer.
pub open spec fn spec_frame_encodes(f: Frame) -> bool {
    frame_encode(f.header, f.content, f.payload@, f.footer@) is Some
}

/// Relies on `byte::BytesExt::write_with` serializing an
/// `ieee802154::mac::Frame` with an explicit footer and no security: on
/// success it has written the frame bytes at offsets 1 up to the returned
/// offset, leaving every other byte of the buffer alone, and on failure
/// (the frame does not fit) it reports an error. Serialization depends on
/// the frame fields alone.
#[verifier::external_body]
fn try_write_frame(frame: &Frame, buf: &mut [u8; FRAME_SIZE]) -> (r: Option<usize>)
    ensures
        match (r, frame_encode(frame.header, frame.content, frame.payload@, frame.footer@)) {
            (Some(n), Some(s)) => {
                &&& n == 1 + s.len()
                &&& n <= FRAME_SIZE
                &&& final(buf)@[0] == old(buf)@[0]
                &&& final(buf)@.subrange(1, n as int) == s
                &&& final(buf)@.skip(n as int) == old(buf)@.skip(n as int)
            },
            (None, None) => true,
            _ => false,
        },
{
    let f = ieee802154::mac::Frame {
        header: frame.header,
        content: frame.content,
        payload: frame.payload.as_slice(),
        footer: frame.footer,
    };
    let mut offset = 1usize;
    let mut ctx = ieee802154::mac::FrameSerDesContext::no_security(
        ieee802154::mac::FooterMode::Explicit,
    );
    match byte::BytesExt::write_with(&mut buf[..], &mut offset, f, &mut ctx) {
        Ok(()) => Some(offset),
        Err(_) => None,
    }
}

/// Serialize a frame into the length-prefixed transmit buffer: the frame
/// bytes start at offset 1 and byte 0 receives their count.
pub fn encode_into_buffer(frame: &Frame, buf: &mut [u8; FRAME_SIZE]) -> (r: Option<usize>)
    ensures
        match (r, frame_encode(frame.header, frame.content, frame.payload@, frame.footer@)) {
            (Some(n), Some(s)) => {
                &&& n == 1 + s.len()
                &&& n <= FRAME_SIZE
                &&& final(buf)@[0] == s.len() as u8
                &&& final(buf)@.subrange(1, n as int) == s
                &&& final(buf)@.skip(n as int) == old(buf)@.skip(n as int)
            },
            (None, None) => true,
            _ => false,
        },
{
    match try_write_frame(frame, buf) {
        Some(offset) => {
            let ghost bufw = *buf;
            buf[0] = (offset - 1) as u8;
            proof {
                assert(buf@.subrange(1, offset as int) =~= bufw@.subrange(1, offset as int));
                assert(buf@.skip(offset as int) =~= bufw@.skip(offset as int));
            }
            Some(offset)
        },
        None => None,
    }
}

} // verus!
