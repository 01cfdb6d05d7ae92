//! Ethernet frames as the switch holds them, and the wire format that they
//! come from and go back to.
//!
//! An untagged frame is `dst(6) | src(6) | payload`; a tagged one is
//! `dst(6) | src(6) | 0x8100 | tci(2) | payload`, where the low 12 bits of
//! `tci` are the VLAN identifier. In both the payload starts with the
//! EtherType or length field.

use crate::error::{null_vlan_message, short_frame_message};
use crate::vlan::{is_vlan_id, VlanId};
use vstd::prelude::*;

verus! {

/// A hardware (MAC) address.
pub type HwAddr = [u8; 6];

/// The EtherType that announces an 802.1Q tag.
pub const ETH_TYPE_DOT1Q: u16 = 0x8100;

/// The number that the two bytes `hi`, `lo` spell in network order.
pub open spec fn be16(hi: u8, lo: u8) -> u16 {
    (hi * 256 + lo) as u16
}

/// Reads two bytes in network order.
pub fn read_be16(hi: u8, lo: u8) -> (value: u16)
    ensures
        value == be16(hi, lo),
{
    (hi as u16) * 256 + (lo as u16)
}

/// A frame as mathematics sees it: two addresses and the bytes that follow.
#[verifier::ext_equal]
pub struct FrameView {
    pub dst: Seq<u8>,
    pub src: Seq<u8>,
    pub rest: Seq<u8>,
}

/// A frame together with the number of the VLAN it belongs to.
#[verifier::ext_equal]
pub struct ScopedFrameView {
    pub vlan_id: u16,
    pub frame: FrameView,
}

impl FrameView {
    /// The frame on the wire, without a tag.
    pub open spec fn untagged(self) -> Seq<u8> {
        self.dst + self.src + self.rest
    }

    /// The frame on the wire, with the 802.1Q tag of `vlan_id`: priority and
    /// drop-eligible bits zero.
    pub open spec fn tagged(self, vlan_id: u16) -> Seq<u8> {
        self.dst + self.src + seq![0x81u8, 0x00u8, (vlan_id / 256) as u8, (vlan_id % 256) as u8]
            + self.rest
    }
}

impl ScopedFrameView {
    /// The frame on the wire, without a tag.
    pub open spec fn untagged(self) -> Seq<u8> {
        self.frame.untagged()
    }

    /// The frame on the wire, with the tag of its VLAN.
    pub open spec fn tagged(self) -> Seq<u8> {
        self.frame.tagged(self.vlan_id)
    }
}

/// What the bytes `data` hold: the VLAN of the tag, if there is a tag, and
/// the frame without it; or the text of the reason why they are no frame.
pub open spec fn parse(data: Seq<u8>) -> Result<(Option<u16>, FrameView), Seq<char>> {
    if data.len() < 14 {
        Err(short_frame_message())
    } else if be16(data[12], data[13]) != ETH_TYPE_DOT1Q {
        Ok(
            (
                None,
                FrameView {
                    dst: data.subrange(0, 6),
                    src: data.subrange(6, 12),
                    rest: data.subrange(12, data.len() as int),
                },
            ),
        )
    } else if data.len() < 16 {
        Err(short_frame_message())
    } else if be16(data[14], data[15]) & 0x0fff == 0 {
        Err(null_vlan_message())
    } else {
        Ok(
            (
                Some(be16(data[14], data[15]) & 0x0fff),
                FrameView {
                    dst: data.subrange(0, 6),
                    src: data.subrange(6, 12),
                    rest: data.subrange(16, data.len() as int),
                },
            ),
        )
    }
}

/// Whether `frame` has addresses of six bytes each, as every parsed frame has.
pub open spec fn well_formed(frame: FrameView) -> bool {
    frame.dst.len() == 6 && frame.src.len() == 6
}

/// What was parsed is well formed, and a VLAN that was parsed is a VLAN
/// identifier.
pub proof fn lemma_parse_well_formed(data: Seq<u8>)
    ensures
        parse(data) matches Ok((dot1q, frame)) ==> well_formed(frame) && (dot1q matches Some(vlan_id)
            ==> is_vlan_id(vlan_id)),
{
    if data.len() >= 16 {
        let tci = be16(data[14], data[15]);
        assert(tci & 0x0fff < 4096) by (bit_vector);
    }
}

/// Round trip: the tagged form of a frame parses back to the frame and the
/// VLAN of the tag.
pub proof fn lemma_parse_tagged(frame: FrameView, vlan_id: u16)
    requires
        well_formed(frame),
        is_vlan_id(vlan_id),
    ensures
        parse(frame.tagged(vlan_id)) == Ok::<_, Seq<char>>((Some(vlan_id), frame)),
{
    let data = frame.tagged(vlan_id);
    assert(vlan_id & 0x0fff == vlan_id) by (bit_vector)
        requires
            vlan_id < 4096,
    ;
    assert(data.subrange(0, 6) =~= frame.dst);
    assert(data.subrange(6, 12) =~= frame.src);
    assert(data.subrange(16, data.len() as int) =~= frame.rest);
}

/// Round trip: the untagged form of a frame parses back to the frame, without
/// a VLAN, unless its payload starts with the EtherType of an 802.1Q tag or
/// is too short to hold an EtherType.
pub proof fn lemma_parse_untagged(frame: FrameView)
    requires
        well_formed(frame),
        frame.rest.len() >= 2,
        be16(frame.rest[0], frame.rest[1]) != ETH_TYPE_DOT1Q,
    ensures
        parse(frame.untagged()) == Ok::<_, Seq<char>>((None::<u16>, frame)),
{
    let data = frame.untagged();
    assert(data.subrange(0, 6) =~= frame.dst);
    assert(data.subrange(6, 12) =~= frame.src);
    assert(data.subrange(12, data.len() as int) =~= frame.rest);
}

/// Round trip: a frame that was parsed without a tag goes back onto the wire,
/// untagged, as the bytes that it was parsed from.
pub proof fn lemma_untagged_restores(data: Seq<u8>)
    ensures
        parse(data) matches Ok((None, frame)) ==> frame.untagged() == data,
{
}

/// Round trip: a frame that was parsed with a tag goes back onto the wire,
/// tagged, as the bytes that it was parsed from, but for the four bits above
/// the VLAN identifier, which come back as zero.
pub proof fn lemma_tagged_restores(data: Seq<u8>)
    ensures
        parse(data) matches Ok((Some(vlan_id), frame)) ==> frame.tagged(vlan_id) == data.update(
            14,
            data[14] & 0x0f,
        ),
{
    if data.len() >= 16 {
        let hi = data[14];
        let lo = data[15];
        let vlan_id = be16(hi, lo) & 0x0fff;
        assert((hi * 256 + lo) as u16 & 0x0fff == (hi & 0x0f) * 256 + lo) by (bit_vector);
        assert(hi & 0x0f < 16) by (bit_vector);
        match parse(data) {
            Ok((Some(_), frame)) => {
                assert(data[12] == 0x81 && data[13] == 0x00);
                assert(frame.tagged(vlan_id) =~= data.update(14, data[14] & 0x0f));
            },
            _ => {},
        }
    }
}

/// The parsed Ethernet header and what follows it.
#[derive(Debug)]
pub struct Frame {
    /// Destination address.
    pub dst: HwAddr,
    /// Source address.
    pub src: HwAddr,
    /// The bytes from the EtherType or length field on.
    pub rest: Vec<u8>,
}

impl View for Frame {
    type V = FrameView;

    open spec fn view(&self) -> FrameView {
        FrameView { dst: self.dst@, src: self.src@, rest: self.rest@ }
    }
}

/// A frame that was admitted, with the VLAN that it was assigned to.
#[derive(Debug)]
pub struct ScopedFrame {
    /// The VLAN of the frame's tag, or of the port it came in on.
    pub vlan_id: VlanId,
    /// The frame, without a tag.
    pub frame: Frame,
}

impl View for ScopedFrame {
    type V = ScopedFrameView;

    open spec fn view(&self) -> ScopedFrameView {
        ScopedFrameView { vlan_id: self.vlan_id@, frame: self.frame@ }
    }
}

impl ScopedFrame {
    /// The bytes that leave a port on which the VLAN is tagged.
    pub fn tagged(&self) -> (bytes: Vec<u8>)
        ensures
            bytes@ == self@.tagged(),
    {
        let vlan = self.vlan_id.to_u16();
        let mut result: Vec<u8> = Vec::new();
        result.extend_from_slice(self.frame.dst.as_slice());
        result.extend_from_slice(self.frame.src.as_slice());
        result.push(0x81);
        result.push(0x00);
        result.push((vlan / 256) as u8);
        result.push((vlan % 256) as u8);
        result.extend_from_slice(self.frame.rest.as_slice());
        result
    }

    /// The bytes that leave a port on which the VLAN is untagged.
    pub fn untagged(&self) -> (bytes: Vec<u8>)
        ensures
            bytes@ == self@.untagged(),
    {
        let mut result: Vec<u8> = Vec::new();
        result.extend_from_slice(self.frame.dst.as_slice());
        result.extend_from_slice(self.frame.src.as_slice());
        result.extend_from_slice(self.frame.rest.as_slice());
        result
    }
}

} // verus!
