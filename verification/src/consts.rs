//! Protocol-wide constants: the implemented protocol version and the
//! Ethernet framing figures for GeoNetworking payloads.

use vstd::prelude::*;

verus! {

/// Protocol major release version, also carried in the header of a
/// GeoNetworking frame.
pub const VMAJOR: u8 = 1;

/// Protocol minor release version.
pub const VMINOR: u8 = 3;

/// Protocol patch (bugfix) version.
pub const VPATCH: u8 = 1;

/// Ethernet frame identifier reserved for a GeoNetworking packet in an
/// Ethernet frame.
pub const ETHERNET_FRAME_ID: u16 = 0x8947;

/// Maximum Ethernet frame payload size in bytes.
pub const ETHERNET_MTU_SIZE: usize = 1500;

/// Maximum GeoNetworking payload size in bytes: the MTU size minus 200
/// bytes of header overhead.
pub const PAYLOAD_SIZE: usize = ETHERNET_MTU_SIZE - 200;

/// The protocol version as a three-byte identifier: major, minor, patch.
pub fn version() -> (r: [u8; 3])
    ensures
        r@ == seq![VMAJOR, VMINOR, VPATCH],
{
    let r: [u8; 3] = [VMAJOR, VMINOR, VPATCH];
    proof {
        assert(r@ =~= seq![VMAJOR, VMINOR, VPATCH]);
    }
    r
}

} // verus!
