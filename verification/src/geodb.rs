//! The decoded lookup database, built from one blob read out of the shared
//! store and queried per request.
//!
//! Decoding and the address lookup are the work of the `maxminddb` crate;
//! the library states what both depend on — the blob's bytes and the looked
//! up address — and verifies everything around the two calls against that.

use vstd::prelude::*;

use crate::ip::IpAddress;

verus! {

/// The bytes that a database was built from.
pub uninterp spec fn db_blob(db: GeoDatabase) -> Seq<u8>;

/// Whether `maxminddb::Reader::from_source` accepts a blob.
pub uninterp spec fn decode_ok(blob: Seq<u8>) -> bool;

/// The country code that a lookup in the database decoded from `blob` yields
/// for `ip`: nothing when the database has no record for the address, the
/// record carries no country code, or the lookup itself fails.
pub uninterp spec fn country_of(blob: Seq<u8>, ip: IpAddress) -> Option<Seq<char>>;

/// A blob that the database reader refuses.
pub struct DecodeError {
    pub message: String,
}

/// A decoded, immutable, queryable database built from exactly one blob.
/// The wrapped reader is opaque; the contracts speak of `db_blob`, the bytes
/// it was built from.
#[verifier::external_body]
pub struct GeoDatabase {
    reader: maxminddb::Reader<Vec<u8>>,
}

impl GeoDatabase {
    /// The bytes this database was decoded from.
    pub open spec fn blob(&self) -> Seq<u8> {
        db_blob(*self)
    }

    /// Relies on `maxminddb::Reader::from_source`: whether a blob decodes
    /// depends on its bytes alone.
    #[verifier::external_body]
    pub(crate) fn decode(bytes: &Vec<u8>) -> (r: Result<GeoDatabase, DecodeError>)
        ensures
            r is Ok <==> decode_ok(bytes@),
            r matches Ok(db) ==> db_blob(db) == bytes@,
    {
        match maxminddb::Reader::from_source(bytes.clone()) {
            Ok(reader) => Ok(GeoDatabase { reader }),
            Err(e) => Err(DecodeError { message: format!("{:?}", e) }),
        }
    }

    /// Relies on `maxminddb::Reader::lookup` and `LookupResult::decode` for
    /// `geoip2::Country` records: the record found depends on the database
    /// bytes and the looked-up address alone.
    #[verifier::external_body]
    pub(crate) fn lookup_country(&self, ip: IpAddress) -> (r: Option<String>)
        ensures
            (match country_of(self.blob(), ip) {
                Some(c) => r matches Some(s) && s@ == c,
                None => r is None,
            }),
    {
        let addr = match ip {
            IpAddress::V4(a, b, c, d) => core::net::IpAddr::V4(
                core::net::Ipv4Addr::new(a, b, c, d),
            ),
            IpAddress::V6(a, b, c, d, e, f, g, h) => core::net::IpAddr::V6(
                core::net::Ipv6Addr::new(a, b, c, d, e, f, g, h),
            ),
        };
        match self.reader.lookup(addr) {
            Ok(res) => match res.decode::<maxminddb::geoip2::Country>() {
                Ok(Some(rec)) => rec.country.iso_code.map(|s| s.to_string()),
                _ => None,
            },
            Err(_) => None,
        }
    }
}

} // verus!
