//! The fixed 256-byte frame header and its byte-exact codec.

use vstd::prelude::*;
use vstd::bytes::{
    lemma_auto_spec_u16_to_from_le_bytes, lemma_auto_spec_u32_to_from_le_bytes,
    spec_u16_from_le_bytes, spec_u16_to_le_bytes, spec_u32_from_le_bytes, spec_u32_to_le_bytes,
    u16_from_le_bytes, u16_to_le_bytes, u32_from_le_bytes, u32_to_le_bytes,
};
use vstd::utf8::encode_utf8;
use crate::bytes::{array_at, fit, fit_bytes, push_all, zeros};

verus! {

/// Length in bytes of a serialized header.
pub const HEADER_LEN: usize = 256;

/// Types with a fixed-size wire form of `N` bytes.
pub trait Serialize<const N: usize> {
    /// The wire form of `self`.
    spec fn wire(&self) -> Seq<u8>;

    fn serialize(&self) -> (r: [u8; N])
        ensures
            r@ == self.wire(),
    ;

    fn serialize_vec(&self) -> (r: Vec<u8>)
        ensures
            r@ == self.wire(),
    ;
}

/// Types that can be read back from a fixed-size wire form of `N` bytes.
pub trait Deserialize<const N: usize> {
    type T;

    /// `value` is what `bytes` decode to.
    spec fn decodes(bytes: Seq<u8>, value: Self::T) -> bool;

    fn deserialize(bytes: [u8; N]) -> (r: Self::T)
        ensures
            Self::decodes(bytes@, r),
    ;
}

/// The frame header exchanged in both directions.
#[derive(Debug)]
pub struct DataHead {
    pub virtual_host: [u8; 32],
    pub channel: [u8; 32],
    pub version: [u8; 4],
    pub routing_mod: [u8; 4],
    pub command: [u8; 24],
    pub route0: [u8; 32],
    pub route1: [u8; 32],
    pub route2: [u8; 32],
    /// Destination queue name.
    pub route3: [u8; 32],
    pub slice_count: u32,
    pub slice_size: u32,
    pub count: u32,
    pub errcode: u16,
    pub ack: u16,
    pub reserved: [u8; 16],
}

/// The protocol version written into every header.
pub open spec fn version_bytes() -> Seq<u8> {
    seq![1u8, 0u8, 0u8, 0u8]
}

/// The wire form of a header: every field in order, integers little-endian.
pub open spec fn header_bytes(h: DataHead) -> Seq<u8> {
    h.virtual_host@ + h.channel@ + h.version@ + h.routing_mod@ + h.command@ + h.route0@
        + h.route1@ + h.route2@ + h.route3@ + spec_u32_to_le_bytes(h.slice_count)
        + spec_u32_to_le_bytes(h.slice_size) + spec_u32_to_le_bytes(h.count)
        + spec_u16_to_le_bytes(h.errcode) + spec_u16_to_le_bytes(h.ack) + h.reserved@
}

/// `h` is what the 256 bytes `b` decode to, field by field at fixed offsets.
pub open spec fn header_decodes(b: Seq<u8>, h: DataHead) -> bool {
    &&& h.virtual_host@ == b.subrange(0, 32)
    &&& h.channel@ == b.subrange(32, 64)
    &&& h.version@ == b.subrange(64, 68)
    &&& h.routing_mod@ == b.subrange(68, 72)
    &&& h.command@ == b.subrange(72, 96)
    &&& h.route0@ == b.subrange(96, 128)
    &&& h.route1@ == b.subrange(128, 160)
    &&& h.route2@ == b.subrange(160, 192)
    &&& h.route3@ == b.subrange(192, 224)
    &&& h.slice_count == spec_u32_from_le_bytes(b.subrange(224, 228))
    &&& h.slice_size == spec_u32_from_le_bytes(b.subrange(228, 232))
    &&& h.count == spec_u32_from_le_bytes(b.subrange(232, 236))
    &&& h.errcode == spec_u16_from_le_bytes(b.subrange(236, 238))
    &&& h.ack == spec_u16_from_le_bytes(b.subrange(238, 240))
    &&& h.reserved@ == b.subrange(240, 256)
}

/// Every header serializes to exactly 256 bytes.
pub proof fn lemma_header_len(h: DataHead)
    ensures
        header_bytes(h).len() == HEADER_LEN,
{
    lemma_auto_spec_u32_to_from_le_bytes();
    lemma_auto_spec_u16_to_from_le_bytes();
}

/// Decoding the wire form of any header gives back that header, field for
/// field.
pub proof fn lemma_header_round_trip(h: DataHead, r: DataHead)
    requires
        header_decodes(header_bytes(h), r),
    ensures
        r == h,
{
    lemma_auto_spec_u32_to_from_le_bytes();
    lemma_auto_spec_u16_to_from_le_bytes();
    let b = header_bytes(h);
    assert(b.subrange(0, 32) =~= h.virtual_host@);
    assert(b.subrange(32, 64) =~= h.channel@);
    assert(b.subrange(64, 68) =~= h.version@);
    assert(b.subrange(68, 72) =~= h.routing_mod@);
    assert(b.subrange(72, 96) =~= h.command@);
    assert(b.subrange(96, 128) =~= h.route0@);
    assert(b.subrange(128, 160) =~= h.route1@);
    assert(b.subrange(160, 192) =~= h.route2@);
    assert(b.subrange(192, 224) =~= h.route3@);
    assert(b.subrange(224, 228) =~= spec_u32_to_le_bytes(h.slice_count));
    assert(b.subrange(228, 232) =~= spec_u32_to_le_bytes(h.slice_size));
    assert(b.subrange(232, 236) =~= spec_u32_to_le_bytes(h.count));
    assert(b.subrange(236, 238) =~= spec_u16_to_le_bytes(h.errcode));
    assert(b.subrange(238, 240) =~= spec_u16_to_le_bytes(h.ack));
    assert(b.subrange(240, 256) =~= h.reserved@);
    assert(r.virtual_host =~= h.virtual_host);
    assert(r.channel =~= h.channel);
    assert(r.version =~= h.version);
    assert(r.routing_mod =~= h.routing_mod);
    assert(r.command =~= h.command);
    assert(r.route0 =~= h.route0);
    assert(r.route1 =~= h.route1);
    assert(r.route2 =~= h.route2);
    assert(r.route3 =~= h.route3);
    assert(r.reserved =~= h.reserved);
}

/// Decoding is byte-exact: any 256 bytes decode to a header whose wire
/// form is those same bytes.
pub proof fn lemma_bytes_round_trip(b: Seq<u8>, r: DataHead)
    requires
        b.len() == HEADER_LEN,
        header_decodes(b, r),
    ensures
        header_bytes(r) == b,
{
    lemma_auto_spec_u32_to_from_le_bytes();
    lemma_auto_spec_u16_to_from_le_bytes();
    assert(spec_u32_to_le_bytes(r.slice_count) == b.subrange(224, 228));
    assert(spec_u32_to_le_bytes(r.slice_size) == b.subrange(228, 232));
    assert(spec_u32_to_le_bytes(r.count) == b.subrange(232, 236));
    assert(spec_u16_to_le_bytes(r.errcode) == b.subrange(236, 238));
    assert(spec_u16_to_le_bytes(r.ack) == b.subrange(238, 240));
    assert(header_bytes(r) =~= b);
}

impl DataHead {
    /// A header for one frame; `route` holds the three routing slots and the
    /// queue name, 32 bytes each.
    pub fn new(
        virtual_host: String,
        channel: [u8; 32],
        routing_mod: [u8; 4],
        command: [u8; 24],
        route: [u8; 128],
        slice_count: u32,
        slice_size: u32,
        count: u32,
        msg_sign: u16,
    ) -> (r: DataHead)
        ensures
            r.virtual_host@ == fit(encode_utf8(virtual_host@), 32),
            r.channel == channel,
            r.version@ == version_bytes(),
            r.routing_mod == routing_mod,
            r.command == command,
            r.route0@ == route@.subrange(0, 32),
            r.route1@ == route@.subrange(32, 64),
            r.route2@ == route@.subrange(64, 96),
            r.route3@ == route@.subrange(96, 128),
            r.slice_count == slice_count,
            r.slice_size == slice_size,
            r.count == count,
            r.errcode == msg_sign,
            r.ack == 0,
            r.reserved@ == zeros(16),
    {
        let host = fit_bytes(virtual_host.as_str().as_bytes(), 32);
        let version: [u8; 4] = [1u8, 0u8, 0u8, 0u8];
        let reserved: [u8; 16] = [0u8; 16];
        assert(version@ =~= version_bytes());
        assert(reserved@ =~= zeros(16));
        DataHead {
            virtual_host: array_at(host.as_slice(), 0),
            channel,
            version,
            routing_mod,
            command,
            route0: array_at(route.as_slice(), 0),
            route1: array_at(route.as_slice(), 32),
            route2: array_at(route.as_slice(), 64),
            route3: array_at(route.as_slice(), 96),
            slice_count,
            slice_size,
            count,
            errcode: msg_sign,
            ack: 0,
            reserved,
        }
    }

    /// Total payload bytes announced by this header.
    pub fn payload_len(&self) -> (r: u64)
        ensures
            r == self.slice_count as int * self.slice_size as int,
    {
        assert(self.slice_count as int * self.slice_size as int <= 0xffff_ffff * 0xffff_ffff)
            by (nonlinear_arith);
        self.slice_count as u64 * self.slice_size as u64
    }
}

impl Serialize<256> for DataHead {
    open spec fn wire(&self) -> Seq<u8> {
        header_bytes(*self)
    }

    fn serialize(&self) -> (r: [u8; 256]) {
        let v = self.serialize_vec();
        proof {
            lemma_header_len(*self);
            assert(v@.subrange(0, 256) =~= v@);
        }
        array_at(v.as_slice(), 0)
    }

    fn serialize_vec(&self) -> (r: Vec<u8>) {
        proof {
            lemma_auto_spec_u32_to_from_le_bytes();
            lemma_auto_spec_u16_to_from_le_bytes();
        }
        let mut out: Vec<u8> = Vec::with_capacity(HEADER_LEN);
        push_all(&mut out, self.virtual_host.as_slice());
        push_all(&mut out, self.channel.as_slice());
        push_all(&mut out, self.version.as_slice());
        push_all(&mut out, self.routing_mod.as_slice());
        push_all(&mut out, self.command.as_slice());
        push_all(&mut out, self.route0.as_slice());
        push_all(&mut out, self.route1.as_slice());
        push_all(&mut out, self.route2.as_slice());
        push_all(&mut out, self.route3.as_slice());
        push_all(&mut out, u32_to_le_bytes(self.slice_count).as_slice());
        push_all(&mut out, u32_to_le_bytes(self.slice_size).as_slice());
        push_all(&mut out, u32_to_le_bytes(self.count).as_slice());
        push_all(&mut out, u16_to_le_bytes(self.errcode).as_slice());
        push_all(&mut out, u16_to_le_bytes(self.ack).as_slice());
        push_all(&mut out, self.reserved.as_slice());
        out
    }
}

impl Deserialize<256> for DataHead {
    type T = DataHead;

    open spec fn decodes(bytes: Seq<u8>, value: DataHead) -> bool {
        header_decodes(bytes, value)
    }

    fn deserialize(data: [u8; 256]) -> (r: DataHead) {
        let b = data.as_slice();
        DataHead {
            virtual_host: array_at(b, 0),
            channel: array_at(b, 32),
            version: array_at(b, 64),
            routing_mod: array_at(b, 68),
            command: array_at(b, 72),
            route0: array_at(b, 96),
            route1: array_at(b, 128),
            route2: array_at(b, 160),
            route3: array_at(b, 192),
            slice_count: u32_from_le_bytes(vstd::slice::slice_subrange(b, 224, 228)),
            slice_size: u32_from_le_bytes(vstd::slice::slice_subrange(b, 228, 232)),
            count: u32_from_le_bytes(vstd::slice::slice_subrange(b, 232, 236)),
            errcode: u16_from_le_bytes(vstd::slice::slice_subrange(b, 236, 238)),
            ack: u16_from_le_bytes(vstd::slice::slice_subrange(b, 238, 240)),
            reserved: array_at(b, 240),
        }
    }
}

} // verus!
