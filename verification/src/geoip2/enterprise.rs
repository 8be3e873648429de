//! The enterprise record shapes, with their confidence fields.

pub use super::country::{
    spec_continent_matches, spec_continent_ok, spec_represented_country_matches,
    spec_represented_country_ok, Continent, RepresentedCountry,
};

use vstd::prelude::*;

use crate::error::MaxMindDBError;
use crate::geoip2::{opt_bool, opt_double_bits, opt_text, opt_text_map, opt_u16, opt_u32, opt_u8, record_error, spec_opt_bool, spec_opt_double_bits, spec_opt_text, spec_opt_text_map, spec_opt_u16, spec_opt_u32, spec_opt_u8, view_opt_pairs, view_opt_string};
use crate::value::{SpecVal, Value};

verus! {

/// GeoIP2 City record.
#[derive(Debug)]
pub struct City {
    pub confidence: Option<u8>,
    pub geoname_id: Option<u32>,
    pub names: Option<Vec<(String, String)>>,
}

/// The value binds into [`City`]: every present field has the right shape.
pub open spec fn spec_city_ok(sv: SpecVal) -> bool {
    match sv {
        SpecVal::Dict(es) => {
            &&& spec_opt_u8(es, "confidence"@) is Ok
            &&& spec_opt_u32(es, "geoname_id"@) is Ok
            &&& spec_opt_text_map(es, "names"@) is Ok
        },
        _ => false,
    }
}

/// `c` holds exactly what the value's fields bind to.
pub open spec fn spec_city_matches(sv: SpecVal, c: City) -> bool {
    match sv {
        SpecVal::Dict(es) => {
            &&& spec_opt_u8(es, "confidence"@) == Ok::<_, ()>(c.confidence)
            &&& spec_opt_u32(es, "geoname_id"@) == Ok::<_, ()>(c.geoname_id)
            &&& spec_opt_text_map(es, "names"@) == Ok::<_, ()>(view_opt_pairs(c.names))
        },
        _ => false,
    }
}

impl City {
    /// Binds a decoded record into this shape: present fields must
    /// have the shape the field declares, absent fields stay `None`.
    pub fn from_value(v: &Value) -> (r: Result<City, MaxMindDBError>)
        ensures
            r is Ok <==> spec_city_ok(v@),
            r matches Ok(c) ==> spec_city_matches(v@, c),
            r matches Err(e) ==> e is DecodingError,
    {
        let entries = match v {
            Value::Dict(es) => es,
            _ => {
                return Err(record_error("record is not a map"));
            },
        };
        let confidence = match opt_u8(entries, "confidence") {
            Ok(x) => x,
            Err(e) => {
                return Err(e);
            },
        };
        let geoname_id = match opt_u32(entries, "geoname_id") {
            Ok(x) => x,
            Err(e) => {
                return Err(e);
            },
        };
        let names = match opt_text_map(entries, "names") {
            Ok(x) => x,
            Err(e) => {
                return Err(e);
            },
        };
        Ok(City {
            confidence,
            geoname_id,
            names,
        })
    }
}

/// GeoIP2 Country record.
#[derive(Debug)]
pub struct Country {
    pub confidence: Option<u8>,
    pub geoname_id: Option<u32>,
    pub is_in_european_union: Option<bool>,
    pub iso_code: Option<String>,
    pub names: Option<Vec<(String, String)>>,
}

/// The value binds into [`Country`]: every present field has the right shape.
pub open spec fn spec_country_ok(sv: SpecVal) -> bool {
    match sv {
        SpecVal::Dict(es) => {
            &&& spec_opt_u8(es, "confidence"@) is Ok
            &&& spec_opt_u32(es, "geoname_id"@) is Ok
            &&& spec_opt_bool(es, "is_in_european_union"@) is Ok
            &&& spec_opt_text(es, "iso_code"@) is Ok
            &&& spec_opt_text_map(es, "names"@) is Ok
        },
        _ => false,
    }
}

/// `c` holds exactly what the value's fields bind to.
pub open spec fn spec_country_matches(sv: SpecVal, c: Country) -> bool {
    match sv {
        SpecVal::Dict(es) => {
            &&& spec_opt_u8(es, "confidence"@) == Ok::<_, ()>(c.confidence)
            &&& spec_opt_u32(es, "geoname_id"@) == Ok::<_, ()>(c.geoname_id)
            &&& spec_opt_bool(es, "is_in_european_union"@) == Ok::<_, ()>(c.is_in_european_union)
            &&& spec_opt_text(es, "iso_code"@) == Ok::<_, ()>(view_opt_string(c.iso_code))
            &&& spec_opt_text_map(es, "names"@) == Ok::<_, ()>(view_opt_pairs(c.names))
        },
        _ => false,
    }
}

impl Country {
    /// Binds a decoded record into this shape: present fields must
    /// have the shape the field declares, absent fields stay `None`.
    pub fn from_value(v: &Value) -> (r: Result<Country, MaxMindDBError>)
        ensures
            r is Ok <==> spec_country_ok(v@),
            r matches Ok(c) ==> spec_country_matches(v@, c),
            r matches Err(e) ==> e is DecodingError,
    {
        let entries = match v {
            Value::Dict(es) => es,
            _ => {
                return Err(record_error("record is not a map"));
            },
        };
        let confidence = match opt_u8(entries, "confidence") {
            Ok(x) => x,
            Err(e) => {
                return Err(e);
            },
        };
        let geoname_id = match opt_u32(entries, "geoname_id") {
            Ok(x) => x,
            Err(e) => {
                return Err(e);
            },
        };
        let is_in_european_union = match opt_bool(entries, "is_in_european_union") {
            Ok(x) => x,
            Err(e) => {
                return Err(e);
            },
        };
        let iso_code = match opt_text(entries, "iso_code") {
            Ok(x) => x,
            Err(e) => {
                return Err(e);
            },
        };
        let names = match opt_text_map(entries, "names") {
            Ok(x) => x,
            Err(e) => {
                return Err(e);
            },
        };
        Ok(Country {
            confidence,
            geoname_id,
            is_in_european_union,
            iso_code,
            names,
        })
    }
}

/// GeoIP2 Location record; the coordinates are carried as IEEE 754 bit patterns.
#[derive(Debug)]
pub struct Location {
    pub accuracy_radius: Option<u16>,
    pub latitude: Option<u64>,
    pub longitude: Option<u64>,
    pub metro_code: Option<u16>,
    pub time_zone: Option<String>,
}

/// The value binds into [`Location`]: every present field has the right shape.
pub open spec fn spec_location_ok(sv: SpecVal) -> bool {
    match sv {
        SpecVal::Dict(es) => {
            &&& spec_opt_u16(es, "accuracy_radius"@) is Ok
            &&& spec_opt_double_bits(es, "latitude"@) is Ok
            &&& spec_opt_double_bits(es, "longitude"@) is Ok
            &&& spec_opt_u16(es, "metro_code"@) is Ok
            &&& spec_opt_text(es, "time_zone"@) is Ok
        },
        _ => false,
    }
}

/// `c` holds exactly what the value's fields bind to.
pub open spec fn spec_location_matches(sv: SpecVal, c: Location) -> bool {
    match sv {
        SpecVal::Dict(es) => {
            &&& spec_opt_u16(es, "accuracy_radius"@) == Ok::<_, ()>(c.accuracy_radius)
            &&& spec_opt_double_bits(es, "latitude"@) == Ok::<_, ()>(c.latitude)
            &&& spec_opt_double_bits(es, "longitude"@) == Ok::<_, ()>(c.longitude)
            &&& spec_opt_u16(es, "metro_code"@) == Ok::<_, ()>(c.metro_code)
            &&& spec_opt_text(es, "time_zone"@) == Ok::<_, ()>(view_opt_string(c.time_zone))
        },
        _ => false,
    }
}

impl Location {
    /// Binds a decoded record into this shape: present fields must
    /// have the shape the field declares, absent fields stay `None`.
    pub fn from_value(v: &Value) -> (r: Result<Location, MaxMindDBError>)
        ensures
            r is Ok <==> spec_location_ok(v@),
            r matches Ok(c) ==> spec_location_matches(v@, c),
            r matches Err(e) ==> e is DecodingError,
    {
        let entries = match v {
            Value::Dict(es) => es,
            _ => {
                return Err(record_error("record is not a map"));
            },
        };
        let accuracy_radius = match opt_u16(entries, "accuracy_radius") {
            Ok(x) => x,
            Err(e) => {
                return Err(e);
            },
        };
        let latitude = match opt_double_bits(entries, "latitude") {
            Ok(x) => x,
            Err(e) => {
                return Err(e);
            },
        };
        let longitude = match opt_double_bits(entries, "longitude") {
            Ok(x) => x,
            Err(e) => {
                return Err(e);
            },
        };
        let metro_code = match opt_u16(entries, "metro_code") {
            Ok(x) => x,
            Err(e) => {
                return Err(e);
            },
        };
        let time_zone = match opt_text(entries, "time_zone") {
            Ok(x) => x,
            Err(e) => {
                return Err(e);
            },
        };
        Ok(Location {
            accuracy_radius,
            latitude,
            longitude,
            metro_code,
            time_zone,
        })
    }
}

/// GeoIP2 Postal record.
#[derive(Debug)]
pub struct Postal {
    pub code: Option<String>,
    pub confidence: Option<u8>,
}

/// The value binds into [`Postal`]: every present field has the right shape.
pub open spec fn spec_postal_ok(sv: SpecVal) -> bool {
    match sv {
        SpecVal::Dict(es) => {
            &&& spec_opt_text(es, "code"@) is Ok
            &&& spec_opt_u8(es, "confidence"@) is Ok
        },
        _ => false,
    }
}

/// `c` holds exactly what the value's fields bind to.
pub open spec fn spec_postal_matches(sv: SpecVal, c: Postal) -> bool {
    match sv {
        SpecVal::Dict(es) => {
            &&& spec_opt_text(es, "code"@) == Ok::<_, ()>(view_opt_string(c.code))
            &&& spec_opt_u8(es, "confidence"@) == Ok::<_, ()>(c.confidence)
        },
        _ => false,
    }
}

impl Postal {
    /// Binds a decoded record into this shape: present fields must
    /// have the shape the field declares, absent fields stay `None`.
    pub fn from_value(v: &Value) -> (r: Result<Postal, MaxMindDBError>)
        ensures
            r is Ok <==> spec_postal_ok(v@),
            r matches Ok(c) ==> spec_postal_matches(v@, c),
            r matches Err(e) ==> e is DecodingError,
    {
        let entries = match v {
            Value::Dict(es) => es,
            _ => {
                return Err(record_error("record is not a map"));
            },
        };
        let code = match opt_text(entries, "code") {
            Ok(x) => x,
            Err(e) => {
                return Err(e);
            },
        };
        let confidence = match opt_u8(entries, "confidence") {
            Ok(x) => x,
            Err(e) => {
                return Err(e);
            },
        };
        Ok(Postal {
            code,
            confidence,
        })
    }
}

/// GeoIP2 Subdivision record.
#[derive(Debug)]
pub struct Subdivision {
    pub confidence: Option<u8>,
    pub geoname_id: Option<u32>,
    pub iso_code: Option<String>,
    pub names: Option<Vec<(String, String)>>,
}

/// The value binds into [`Subdivision`]: every present field has the right shape.
pub open spec fn spec_subdivision_ok(sv: SpecVal) -> bool {
    match sv {
        SpecVal::Dict(es) => {
            &&& spec_opt_u8(es, "confidence"@) is Ok
            &&& spec_opt_u32(es, "geoname_id"@) is Ok
            &&& spec_opt_text(es, "iso_code"@) is Ok
            &&& spec_opt_text_map(es, "names"@) is Ok
        },
        _ => false,
    }
}

/// `c` holds exactly what the value's fields bind to.
pub open spec fn spec_subdivision_matches(sv: SpecVal, c: Subdivision) -> bool {
    match sv {
        SpecVal::Dict(es) => {
            &&& spec_opt_u8(es, "confidence"@) == Ok::<_, ()>(c.confidence)
            &&& spec_opt_u32(es, "geoname_id"@) == Ok::<_, ()>(c.geoname_id)
            &&& spec_opt_text(es, "iso_code"@) == Ok::<_, ()>(view_opt_string(c.iso_code))
            &&& spec_opt_text_map(es, "names"@) == Ok::<_, ()>(view_opt_pairs(c.names))
        },
        _ => false,
    }
}

impl Subdivision {
    /// Binds a decoded record into this shape: present fields must
    /// have the shape the field declares, absent fields stay `None`.
    pub fn from_value(v: &Value) -> (r: Result<Subdivision, MaxMindDBError>)
        ensures
            r is Ok <==> spec_subdivision_ok(v@),
            r matches Ok(c) ==> spec_subdivision_matches(v@, c),
            r matches Err(e) ==> e is DecodingError,
    {
        let entries = match v {
            Value::Dict(es) => es,
            _ => {
                return Err(record_error("record is not a map"));
            },
        };
        let confidence = match opt_u8(entries, "confidence") {
            Ok(x) => x,
            Err(e) => {
                return Err(e);
            },
        };
        let geoname_id = match opt_u32(entries, "geoname_id") {
            Ok(x) => x,
            Err(e) => {
                return Err(e);
            },
        };
        let iso_code = match opt_text(entries, "iso_code") {
            Ok(x) => x,
            Err(e) => {
                return Err(e);
            },
        };
        let names = match opt_text_map(entries, "names") {
            Ok(x) => x,
            Err(e) => {
                return Err(e);
            },
        };
        Ok(Subdivision {
            confidence,
            geoname_id,
            iso_code,
            names,
        })
    }
}

/// GeoIP2 Traits record.
#[derive(Debug)]
pub struct Traits {
    pub autonomous_system_number: Option<u32>,
    pub autonomous_system_organization: Option<String>,
    pub connection_type: Option<String>,
    pub domain: Option<String>,
    pub is_anonymous: Option<bool>,
    pub is_anonymous_proxy: Option<bool>,
    pub is_anonymous_vpn: Option<bool>,
    pub is_hosting_provider: Option<bool>,
    pub isp: Option<String>,
    pub is_public_proxy: Option<bool>,
    pub is_residential_proxy: Option<bool>,
    pub is_satellite_provider: Option<bool>,
    pub is_tor_exit_node: Option<bool>,
    pub mobile_country_code: Option<String>,
    pub mobile_network_code: Option<String>,
    pub organization: Option<String>,
    pub user_type: Option<String>,
}

/// The value binds into [`Traits`]: every present field has the right shape.
pub open spec fn spec_traits_ok(sv: SpecVal) -> bool {
    match sv {
        SpecVal::Dict(es) => {
            &&& spec_opt_u32(es, "autonomous_system_number"@) is Ok
            &&& spec_opt_text(es, "autonomous_system_organization"@) is Ok
            &&& spec_opt_text(es, "connection_type"@) is Ok
            &&& spec_opt_text(es, "domain"@) is Ok
            &&& spec_opt_bool(es, "is_anonymous"@) is Ok
            &&& spec_opt_bool(es, "is_anonymous_proxy"@) is Ok
            &&& spec_opt_bool(es, "is_anonymous_vpn"@) is Ok
            &&& spec_opt_bool(es, "is_hosting_provider"@) is Ok
            &&& spec_opt_text(es, "isp"@) is Ok
            &&& spec_opt_bool(es, "is_public_proxy"@) is Ok
            &&& spec_opt_bool(es, "is_residential_proxy"@) is Ok
            &&& spec_opt_bool(es, "is_satellite_provider"@) is Ok
            &&& spec_opt_bool(es, "is_tor_exit_node"@) is Ok
            &&& spec_opt_text(es, "mobile_country_code"@) is Ok
            &&& spec_opt_text(es, "mobile_network_code"@) is Ok
            &&& spec_opt_text(es, "organization"@) is Ok
            &&& spec_opt_text(es, "user_type"@) is Ok
        },
        _ => false,
    }
}

/// `c` holds exactly what the value's fields bind to.
pub open spec fn spec_traits_matches(sv: SpecVal, c: Traits) -> bool {
    match sv {
        SpecVal::Dict(es) => {
            &&& spec_opt_u32(es, "autonomous_system_number"@) == Ok::<_, ()>(c.autonomous_system_number)
            &&& spec_opt_text(es, "autonomous_system_organization"@) == Ok::<_, ()>(view_opt_string(c.autonomous_system_organization))
            &&& spec_opt_text(es, "connection_type"@) == Ok::<_, ()>(view_opt_string(c.connection_type))
            &&& spec_opt_text(es, "domain"@) == Ok::<_, ()>(view_opt_string(c.domain))
            &&& spec_opt_bool(es, "is_anonymous"@) == Ok::<_, ()>(c.is_anonymous)
            &&& spec_opt_bool(es, "is_anonymous_proxy"@) == Ok::<_, ()>(c.is_anonymous_proxy)
            &&& spec_opt_bool(es, "is_anonymous_vpn"@) == Ok::<_, ()>(c.is_anonymous_vpn)
            &&& spec_opt_bool(es, "is_hosting_provider"@) == Ok::<_, ()>(c.is_hosting_provider)
            &&& spec_opt_text(es, "isp"@) == Ok::<_, ()>(view_opt_string(c.isp))
            &&& spec_opt_bool(es, "is_public_proxy"@) == Ok::<_, ()>(c.is_public_proxy)
            &&& spec_opt_bool(es, "is_residential_proxy"@) == Ok::<_, ()>(c.is_residential_proxy)
            &&& spec_opt_bool(es, "is_satellite_provider"@) == Ok::<_, ()>(c.is_satellite_provider)
            &&& spec_opt_bool(es, "is_tor_exit_node"@) == Ok::<_, ()>(c.is_tor_exit_node)
            &&& spec_opt_text(es, "mobile_country_code"@) == Ok::<_, ()>(view_opt_string(c.mobile_country_code))
            &&& spec_opt_text(es, "mobile_network_code"@) == Ok::<_, ()>(view_opt_string(c.mobile_network_code))
            &&& spec_opt_text(es, "organization"@) == Ok::<_, ()>(view_opt_string(c.organization))
            &&& spec_opt_text(es, "user_type"@) == Ok::<_, ()>(view_opt_string(c.user_type))
        },
        _ => false,
    }
}

impl Traits {
    /// Binds a decoded record into this shape: present fields must
    /// have the shape the field declares, absent fields stay `None`.
    pub fn from_value(v: &Value) -> (r: Result<Traits, MaxMindDBError>)
        ensures
            r is Ok <==> spec_traits_ok(v@),
            r matches Ok(c) ==> spec_traits_matches(v@, c),
            r matches Err(e) ==> e is DecodingError,
    {
        let entries = match v {
            Value::Dict(es) => es,
            _ => {
                return Err(record_error("record is not a map"));
            },
        };
        let autonomous_system_number = match opt_u32(entries, "autonomous_system_number") {
            Ok(x) => x,
            Err(e) => {
                return Err(e);
            },
        };
        let autonomous_system_organization = match opt_text(entries, "autonomous_system_organization") {
            Ok(x) => x,
            Err(e) => {
                return Err(e);
            },
        };
        let connection_type = match opt_text(entries, "connection_type") {
            Ok(x) => x,
            Err(e) => {
                return Err(e);
            },
        };
        let domain = match opt_text(entries, "domain") {
            Ok(x) => x,
            Err(e) => {
                return Err(e);
            },
        };
        let is_anonymous = match opt_bool(entries, "is_anonymous") {
            Ok(x) => x,
            Err(e) => {
                return Err(e);
            },
        };
        let is_anonymous_proxy = match opt_bool(entries, "is_anonymous_proxy") {
            Ok(x) => x,
            Err(e) => {
                return Err(e);
            },
        };
        let is_anonymous_vpn = match opt_bool(entries, "is_anonymous_vpn") {
            Ok(x) => x,
            Err(e) => {
                return Err(e);
            },
        };
        let is_hosting_provider = match opt_bool(entries, "is_hosting_provider") {
            Ok(x) => x,
            Err(e) => {
                return Err(e);
            },
        };
        let isp = match opt_text(entries, "isp") {
            Ok(x) => x,
            Err(e) => {
                return Err(e);
            },
        };
        let is_public_proxy = match opt_bool(entries, "is_public_proxy") {
            Ok(x) => x,
            Err(e) => {
                return Err(e);
            },
        };
        let is_residential_proxy = match opt_bool(entries, "is_residential_proxy") {
            Ok(x) => x,
            Err(e) => {
                return Err(e);
            },
        };
        let is_satellite_provider = match opt_bool(entries, "is_satellite_provider") {
            Ok(x) => x,
            Err(e) => {
                return Err(e);
            },
        };
        let is_tor_exit_node = match opt_bool(entries, "is_tor_exit_node") {
            Ok(x) => x,
            Err(e) => {
                return Err(e);
            },
        };
        let mobile_country_code = match opt_text(entries, "mobile_country_code") {
            Ok(x) => x,
            Err(e) => {
                return Err(e);
            },
        };
        let mobile_network_code = match opt_text(entries, "mobile_network_code") {
            Ok(x) => x,
            Err(e) => {
                return Err(e);
            },
        };
        let organization = match opt_text(entries, "organization") {
            Ok(x) => x,
            Err(e) => {
                return Err(e);
            },
        };
        let user_type = match opt_text(entries, "user_type") {
            Ok(x) => x,
            Err(e) => {
                return Err(e);
            },
        };
        Ok(Traits {
            autonomous_system_number,
            autonomous_system_organization,
            connection_type,
            domain,
            is_anonymous,
            is_anonymous_proxy,
            is_anonymous_vpn,
            is_hosting_provider,
            isp,
            is_public_proxy,
            is_residential_proxy,
            is_satellite_provider,
            is_tor_exit_node,
            mobile_country_code,
            mobile_network_code,
            organization,
            user_type,
        })
    }
}

} // verus!
