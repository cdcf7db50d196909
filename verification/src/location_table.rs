//! The Location Table Entry (LocTE): per-known-station state
//! (ETSI EN 302 636-4-1, clause 8.1).
//!
//! The keyed collection of entries, with its insertion, lookup and eviction
//! policy, belongs to the router layer; this module defines only the record
//! and its construction contract.

use crate::gnaddr::GNAddress;
use crate::macaddr::MACAddress;
use crate::station::StationType;
use vstd::prelude::*;

verus! {

/// One per-known-station record: the GN_ADDR it is keyed by, the most
/// recently observed link-layer address, and the duplicate-detection and
/// rate-estimation state the forwarding logic consults. A passive value
/// holder: no field is validated beyond its type.
pub struct LocTE {
    /// GeoNetworking address (GN_ADDR), the record's key.
    pub gnaddr: GNAddress,
    /// Link-layer address (LL_ADDR, MAC_ADDR, MID) most recently observed.
    pub lladdr: MACAddress,
    /// Station type, a cache of the address's own field for quick access.
    pub station: StationType,
    /// GeoNetworking protocol version.
    pub version: u8,
    /// Position vector of the station (Long Position Vector, clause 9.5.2);
    /// a placeholder until the full structure is modelled.
    pub lpv: u8,
    /// A Location Service lookup (clause 10.2.4) is in flight for this
    /// address.
    pub ls_pending: bool,
    /// The station is within direct single-hop range.
    pub neighbour: bool,
    /// Duplicate packet list for the source GN_ADDR; a placeholder until
    /// the full structure is modelled.
    pub dpl: u8,
    /// Timestamp of the last packet from this source that was identified
    /// as not duplicated.
    pub timestamp: u64,
    /// Packet data rate PDR(GN_ADDR) as an exponential moving average
    /// (clause B.2).
    pub pdr: u8,
}

impl LocTE {
    /// A fresh record for a newly observed address: every field other than
    /// the key starts at its unknown/zero value.
    pub fn new(gnaddr: GNAddress) -> (r: LocTE)
        ensures
            r.gnaddr == gnaddr,
            r.lladdr@ == seq![0u8, 0u8, 0u8, 0u8, 0u8, 0u8],
            r.station == StationType::Unknown,
            r.version == 0,
            r.lpv == 0,
            !r.ls_pending,
            !r.neighbour,
            r.dpl == 0,
            r.timestamp == 0,
            r.pdr == 0,
    {
        let r = LocTE {
            gnaddr,
            lladdr: MACAddress([0; 6]),
            station: StationType::Unknown,
            version: 0,
            lpv: 0,
            ls_pending: false,
            neighbour: false,
            dpl: 0,
            timestamp: 0,
            pdr: 0,
        };
        proof {
            assert(r.lladdr@ =~= seq![0u8, 0u8, 0u8, 0u8, 0u8, 0u8]);
        }
        r
    }
}

} // verus!
