//! Core data model of a GeoNetworking (ETSI EN 302 636-4-1) protocol engine:
//! the station-type code space, the 6-byte link-layer identifier, the 8-byte
//! GN_ADDR codec, the Location Table Entry record, and the packet header
//! skeleton, together with proofs of the codec's round-trip and permissive
//! decode laws.

pub mod consts;
pub mod gnaddr;
pub mod location_table;
pub mod macaddr;
pub mod packet;
pub mod station;

pub use gnaddr::DecodeError;
pub use gnaddr::GNAddress;
pub use location_table::LocTE;
pub use macaddr::MACAddress;
pub use packet::GNBasicHeader;
pub use packet::GNCommonHeader;
pub use packet::GNExtendedHeader;
pub use packet::GNHeader;
pub use packet::GNNextHeader;
pub use packet::GNPacket;
pub use station::ItsStation;
pub use station::StationType;
