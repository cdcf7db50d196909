//! The GeoNetworking address (GN_ADDR) and its 8-byte wire codec
//! (ETSI EN 302 636-4-1, clause 6).
//!
//! Wire layout: byte 0 carries the manual flag in bit 7 and the station-type
//! code in bits 6 through 1 (bit 0 is reserved and zero); byte 1 is reserved
//! and zero; bytes 2 through 7 carry the link-layer address in order.

use crate::macaddr::MACAddress;
use crate::station::lemma_station_code_bound;
use crate::station::lemma_station_code_roundtrip;
use crate::station::station_code;
use crate::station::station_from_code;
use crate::station::StationType;
use vstd::prelude::*;

verus! {

/// Mathematical model of a GeoNetworking address: the manual-assignment
/// flag, the station category, and the six link-layer bytes.
#[verifier::ext_equal]
pub struct GNAddressModel {
    pub manual: bool,
    pub station_type: StationType,
    pub mid: Seq<u8>,
}

/// The one error this core can raise: a wire buffer handed to the decoder
/// whose length is not exactly eight bytes. Malformed framing is surfaced
/// to the transport layer, never silently truncated or padded.
#[derive(Clone, Copy, Debug, PartialEq, Eq)]
pub enum DecodeError {
    InvalidLength,
}

/// A station's GeoNetworking network identity: a manual-assignment flag,
/// a station type, and a link-layer address.
#[derive(Debug, PartialEq, Eq)]
pub struct GNAddress {
    pub manual: bool,
    pub station_type: StationType,
    pub mac_address: MACAddress,
}

impl View for GNAddress {
    type V = GNAddressModel;

    open spec fn view(&self) -> GNAddressModel {
        GNAddressModel {
            manual: self.manual,
            station_type: self.station_type,
            mid: self.mac_address@,
        }
    }
}

/// First wire byte of an address: the station-type code shifted into bits
/// 6 through 1, with the manual flag in bit 7.
pub open spec fn lead_byte(m: GNAddressModel) -> u8 {
    (station_code(m.station_type) << 1) | (if m.manual {
        0x80u8
    } else {
        0u8
    })
}

/// The 8-byte wire form of an address model: the lead byte, one reserved
/// zero byte, then the six link-layer bytes.
pub open spec fn encode_bytes(m: GNAddressModel) -> Seq<u8>
    recommends
        m.mid.len() == 6,
{
    seq![lead_byte(m), 0u8] + m.mid
}

/// The address an 8-byte wire buffer decodes to. Decoding is total: an
/// undefined station-type code collapses to `Unknown`, and the reserved
/// byte is ignored.
pub open spec fn decode_bytes(s: Seq<u8>) -> GNAddressModel
    recommends
        s.len() == 8,
{
    GNAddressModel {
        manual: s[0] & 0x80 != 0,
        station_type: station_from_code((s[0] & 0x7e) >> 1),
        mid: s.subrange(2, 8),
    }
}

impl Default for GNAddress {
    /// The identity of a freshly constructed address: not manually
    /// assigned, unknown station type, all-zero link-layer address.
    fn default() -> (r: Self)
        ensures
            r@ == (GNAddressModel {
                manual: false,
                station_type: StationType::Unknown,
                mid: seq![0u8, 0u8, 0u8, 0u8, 0u8, 0u8],
            }),
    {
        let r = GNAddress {
            manual: false,
            station_type: StationType::Unknown,
            mac_address: MACAddress([0; 6]),
        };
        proof {
            assert(r@ =~= GNAddressModel {
                manual: false,
                station_type: StationType::Unknown,
                mid: seq![0u8, 0u8, 0u8, 0u8, 0u8, 0u8],
            });
        }
        r
    }
}

impl GNAddress {
    /// Whether the address was manually configured rather than derived.
    pub fn is_manual(&self) -> (r: bool)
        ensures
            r == self@.manual,
    {
        self.manual
    }

    /// Sets the manual-assignment flag; the other fields keep their values.
    pub fn set_manual(&mut self, manual: bool)
        ensures
            final(self)@ == (GNAddressModel { manual, ..old(self)@ }),
    {
        self.manual = manual;
    }

    /// The station category of this address.
    pub fn get_station_type(&self) -> (r: StationType)
        ensures
            r == self@.station_type,
    {
        self.station_type
    }

    /// Sets the station category; the other fields keep their values.
    pub fn set_station_type(&mut self, station_type: StationType)
        ensures
            final(self)@ == (GNAddressModel { station_type, ..old(self)@ }),
    {
        self.station_type = station_type;
    }

    /// The link-layer address of this station.
    pub fn get_mac_address(&self) -> (r: MACAddress)
        ensures
            r@ == self@.mid,
    {
        self.mac_address
    }

    /// Sets the link-layer address; the other fields keep their values.
    pub fn set_mac_address(&mut self, mac_address: MACAddress)
        ensures
            final(self)@ == (GNAddressModel { mid: mac_address@, ..old(self)@ }),
    {
        self.mac_address = mac_address;
    }

    /// Encodes this address into its 8-byte wire form. Total and
    /// deterministic: it never fails.
    pub fn encode(&self) -> (r: [u8; 8])
        ensures
            r@ == encode_bytes(self@),
    {
        let st: u8 = self.station_type.to_code();
        let mut b0: u8 = st << 1;
        if self.manual {
            b0 = b0 | 0x80;
        } else {
            proof {
                assert(st << 1 == (st << 1) | 0u8) by (bit_vector);
            }
        }
        let mut buf: [u8; 8] = [0; 8];
        buf[0] = b0;
        buf[2] = self.mac_address.0[0];
        buf[3] = self.mac_address.0[1];
        buf[4] = self.mac_address.0[2];
        buf[5] = self.mac_address.0[3];
        buf[6] = self.mac_address.0[4];
        buf[7] = self.mac_address.0[5];
        proof {
            assert(buf@ =~= encode_bytes(self@));
        }
        buf
    }

    /// Decodes an 8-byte wire buffer into an address. Total: an undefined
    /// station-type code degrades to `Unknown` rather than failing.
    pub fn decode(buf: [u8; 8]) -> (r: GNAddress)
        ensures
            r@ == decode_bytes(buf@),
    {
        let manual: bool = (buf[0] & 0x80) != 0;
        let st: u8 = (buf[0] & 0x7e) >> 1;
        let mac: [u8; 6] = [buf[2], buf[3], buf[4], buf[5], buf[6], buf[7]];
        let r = GNAddress {
            manual,
            station_type: StationType::from_code(st),
            mac_address: MACAddress::new(&mac),
        };
        proof {
            assert(mac@ =~= buf@.subrange(2, 8));
            assert(r@ =~= decode_bytes(buf@));
        }
        r
    }

    /// Decodes an address from a raw byte buffer. Succeeds on every buffer
    /// of exactly eight bytes; any other length is an `InvalidLength`
    /// error. For well-sized input it never fails, like `decode`.
    pub fn decode_slice(buf: &[u8]) -> (r: Result<GNAddress, DecodeError>)
        ensures
            r is Ok <==> buf@.len() == 8,
            r matches Ok(a) ==> a@ == decode_bytes(buf@),
            r matches Err(e) ==> e == DecodeError::InvalidLength,
    {
        if buf.len() != 8 {
            return Err(DecodeError::InvalidLength);
        }
        let arr: [u8; 8] = [buf[0], buf[1], buf[2], buf[3], buf[4], buf[5], buf[6], buf[7]];
        proof {
            assert(arr@ =~= buf@);
        }
        Ok(GNAddress::decode(arr))
    }
}

/// Bit-level facts about a lead byte built from a code below 16: bit 7
/// recovers the flag, bits 6 through 1 recover the code, and bit 0 is zero.
proof fn lemma_lead_byte_bits(c: u8, m: bool)
    requires
        c < 16,
    ensures
        ((c << 1) | (if m {
            0x80u8
        } else {
            0u8
        })) & 0x80 != 0 <==> m,
        (((c << 1) | (if m {
            0x80u8
        } else {
            0u8
        })) & 0x7e) >> 1 == c,
{
    if m {
        assert((((c << 1) | 0x80u8) & 0x80 != 0) && ((((c << 1) | 0x80u8) & 0x7e) >> 1 == c))
            by (bit_vector)
            requires
                c < 16,
        ;
    } else {
        assert((((c << 1) | 0u8) & 0x80 == 0) && ((((c << 1) | 0u8) & 0x7e) >> 1 == c))
            by (bit_vector)
            requires
                c < 16,
        ;
    }
}

/// Round-trip law over models: decoding the encoding of any well-formed
/// address model gives that model back. Well-formed means six link-layer
/// bytes; the station type is always one of the thirteen defined variants,
/// so no restriction on it is needed.
pub proof fn lemma_codec_roundtrip_model(m: GNAddressModel)
    requires
        m.mid.len() == 6,
    ensures
        decode_bytes(encode_bytes(m)) == m,
{
    lemma_station_code_bound(m.station_type);
    lemma_lead_byte_bits(station_code(m.station_type), m.manual);
    lemma_station_code_roundtrip(m.station_type);
    assert(encode_bytes(m).subrange(2, 8) =~= m.mid);
    assert(decode_bytes(encode_bytes(m)) =~= m);
}

/// Round-trip law: for every address `x`, `decode(encode(x))` is `x`,
/// stated over the views the codec's contracts use.
pub proof fn lemma_codec_roundtrip(a: &GNAddress)
    ensures
        decode_bytes(encode_bytes(a@)) == a@,
{
    lemma_codec_roundtrip_model(a@);
}

/// Permissive decode: an 8-byte buffer whose station-type field (bits 6
/// through 1 of byte 0) holds one of the reserved codes 12, 13 or 14
/// decodes, without error, to an address with station type `Unknown`.
pub proof fn lemma_decode_reserved_code(s: Seq<u8>)
    requires
        s.len() == 8,
        12 <= ((s[0] & 0x7e) >> 1) <= 14,
    ensures
        decode_bytes(s).station_type == StationType::Unknown,
{
}

/// Manual-flag isolation: two addresses that differ only in the manual
/// flag encode to buffers that differ exactly in bit 7 of byte 0.
pub proof fn lemma_manual_flag_isolated(m1: GNAddressModel, m2: GNAddressModel)
    requires
        m1.mid.len() == 6,
        m2.station_type == m1.station_type,
        m2.mid == m1.mid,
        m2.manual == !m1.manual,
    ensures
        encode_bytes(m2)[0] ^ encode_bytes(m1)[0] == 0x80,
        forall|i: int| 1 <= i < 8 ==> encode_bytes(m2)[i] == encode_bytes(m1)[i],
{
    let c = station_code(m1.station_type);
    lemma_station_code_bound(m1.station_type);
    assert(((c << 1) | 0x80u8) ^ ((c << 1) | 0u8) == 0x80 && ((c << 1) | 0u8) ^ ((c << 1)
        | 0x80u8) == 0x80) by (bit_vector)
        requires
            c < 16,
    ;
}

/// A default address (manual clear, unknown station type, zero link-layer
/// address) encodes to eight zero bytes.
pub proof fn lemma_default_encodes_to_zero(m: GNAddressModel)
    requires
        m.manual == false,
        m.station_type == StationType::Unknown,
        m.mid == seq![0u8, 0u8, 0u8, 0u8, 0u8, 0u8],
    ensures
        encode_bytes(m) == seq![0u8, 0u8, 0u8, 0u8, 0u8, 0u8, 0u8, 0u8],
{
    assert((0u8 << 1) | 0u8 == 0u8) by (bit_vector);
    assert(encode_bytes(m) =~= seq![0u8, 0u8, 0u8, 0u8, 0u8, 0u8, 0u8, 0u8]);
}

} // verus!
