use vstd::prelude::*;

use crate::Ip;
use crate::blocklist::Blocklist;
use crate::decision::Decision;
use crate::decision::decide_resolved;
use crate::decision::spec_decision;

verus! {

/// The provider database: a read-only, prefix-indexed dataset mapping
/// addresses to ISP records, loaded once at startup and immutable after.
/// It holds the outside crate's reader, opaque to the verifier; what it
/// contains is named by `asn_map`, and read through the trusted lookup.
#[verifier::external_body]
pub struct GeoDb {
    reader: maxminddb::Reader<Vec<u8>>,
}

/// What the loaded database holds: for each address covered by some
/// prefix whose ISP record carries an autonomous system number, that
/// number.
pub uninterp spec fn asn_map(db: GeoDb) -> Map<Ip, u32>;

/// The provider number that a lookup of `ip` in `db` resolves to, if any.
pub open spec fn resolved_asn(db: GeoDb, ip: Ip) -> Option<u32> {
    if asn_map(db).contains_key(ip) {
        Option::Some(asn_map(db)[ip])
    } else {
        Option::None
    }
}

impl GeoDb {
    /// Relies on maxminddb::Reader::from_source: parses the given bytes
    /// as a provider database, returning no database when the bytes are
    /// malformed.
    #[verifier::external_body]
    pub fn from_bytes(bytes: Vec<u8>) -> (r: Option<GeoDb>) {
        match maxminddb::Reader::from_source(bytes) {
            Ok(reader) => Some(GeoDb { reader }),
            Err(_) => None,
        }
    }

    /// Relies on maxminddb::Reader::lookup and maxminddb::LookupResult::decode:
    /// a longest-prefix lookup of the ISP record for an address in the
    /// loaded, immutable in-memory database, a function of the database
    /// bytes and the address alone. A lookup or decode failure, a record
    /// without a number, and an uncovered address all count as no
    /// resolution.
    #[verifier::external_body]
    fn lookup_asn(&self, ip: &Ip) -> (r: Option<u32>)
        ensures
            r == (if asn_map(*self).contains_key(*ip) {
                Option::Some(asn_map(*self)[*ip])
            } else {
                Option::<u32>::None
            }),
    {
        let addr = match ip {
            Ip::V4(bits) => core::net::IpAddr::V4(core::net::Ipv4Addr::from(*bits)),
            Ip::V6(bits) => core::net::IpAddr::V6(core::net::Ipv6Addr::from(*bits)),
        };
        match self.reader.lookup(addr) {
            Ok(result) => match result.decode::<maxminddb::geoip2::Isp>() {
                Ok(Some(isp)) => isp.autonomous_system_number,
                Ok(None) => None,
                Err(_) => None,
            },
            Err(_) => None,
        }
    }
}

/// The shared application state: the provider database and the blocklist,
/// both fully constructed before the first request and immutable after.
pub struct AppState {
    pub mmdb: GeoDb,
    pub blocklist: Blocklist,
}

/// The provider number that the state resolves for a request's peer
/// address, when the transport layer supplied one.
pub open spec fn peer_asn(state: AppState, peer: Option<Ip>) -> Option<u32> {
    match peer {
        Option::None => Option::None,
        Option::Some(ip) => resolved_asn(state.mmdb, ip),
    }
}

impl AppState {
    pub fn new(mmdb: GeoDb, blocklist: Blocklist) -> (r: AppState)
        ensures
            r.mmdb == mmdb,
            r.blocklist == blocklist,
    {
        AppState { mmdb, blocklist }
    }

    /// The middleware's decision for one request: a missing peer address
    /// or an unresolvable provider number lets the request through; a
    /// listed provider number draws the 403 rejection.
    pub fn decide(&self, peer: Option<Ip>) -> (d: Decision)
        ensures
            d@ == spec_decision(self.blocklist@, peer_asn(*self, peer)),
    {
        match peer {
            None => Decision::Forward,
            Some(ip) => {
                let asn = self.mmdb.lookup_asn(&ip);
                decide_resolved(&self.blocklist, asn)
            },
        }
    }
}

} // verus!
