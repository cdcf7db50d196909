//! Structural skeleton of a GeoNetworking packet
//! (ETSI EN 302 636-4-1, clause 9).
//!
//! Only the Basic Header carries defined fields today. The Common and
//! Extended headers are extension points whose concrete content depends on
//! the packet type and is not defined by this core, so each is an open
//! variant set that future header kinds can be added to.

use vstd::prelude::*;

verus! {

/// A GeoNetworking packet: an access-layer header byte, the three-layer
/// GN header, and an optional payload.
pub struct GNPacket {
    pub al_header: u8,
    pub gn_header: GNHeader,
    pub payload: Option<Vec<u8>>,
}

/// The three-layer GeoNetworking header: basic, common, extended.
pub struct GNHeader {
    pub basic: GNBasicHeader,
    pub common: GNCommonHeader,
    pub extended: GNExtendedHeader,
}

/// Discriminator for what follows the Basic Header: nothing in particular,
/// a Common Header, or a security envelope around the rest.
#[derive(Clone, Copy, Debug, PartialEq, Eq)]
pub enum GNNextHeader {
    Any,
    Common,
    Secured,
}

/// Wire code of a next-header discriminator: Any is 0, Common is 1,
/// Secured is 2.
pub open spec fn next_header_code(h: GNNextHeader) -> u8 {
    match h {
        GNNextHeader::Any => 0,
        GNNextHeader::Common => 1,
        GNNextHeader::Secured => 2,
    }
}

/// The Basic Header: protocol version, next-header discriminator, packet
/// lifetime, and the per-hop decremented hop limit.
pub struct GNBasicHeader {
    pub version: u8,
    pub next_header: GNNextHeader,
    pub lifetime: u8,
    pub remaining_hop_limit: u8,
}

/// Content of a Common Header. The standard defines rich content here that
/// this core does not yet model; the one variant stands for a header whose
/// fields are not yet interpreted.
#[derive(Clone, Copy, Debug, PartialEq, Eq)]
pub enum GNCommonHeaderKind {
    Unspecified,
}

/// The Common Header: an extension point keyed by its kind.
#[derive(Clone, Copy, Debug, PartialEq, Eq)]
pub struct GNCommonHeader {
    pub kind: GNCommonHeaderKind,
}

/// Content of an Extended Header, an extension point like the Common
/// Header's.
#[derive(Clone, Copy, Debug, PartialEq, Eq)]
pub enum GNExtendedHeaderKind {
    Unspecified,
}

/// The Extended Header: an extension point keyed by its kind.
#[derive(Clone, Copy, Debug, PartialEq, Eq)]
pub struct GNExtendedHeader {
    pub kind: GNExtendedHeaderKind,
}

} // verus!
