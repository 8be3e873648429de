//! The city-level record shapes; the country-level shapes are shared.

pub use super::country::{
    spec_continent_matches, spec_continent_ok, spec_country_matches, spec_country_ok,
    spec_represented_country_matches, spec_represented_country_ok, spec_traits_matches,
    spec_traits_ok, Continent, Country, RepresentedCountry, Traits,
};

use vstd::prelude::*;

use crate::error::MaxMindDBError;
use crate::geoip2::{opt_double_bits, opt_text, opt_text_map, opt_u16, opt_u32, record_error, spec_opt_double_bits, spec_opt_text, spec_opt_text_map, spec_opt_u16, spec_opt_u32, view_opt_pairs, view_opt_string};
use crate::value::{SpecVal, Value};

verus! {

/// GeoIP2 City record.
#[derive(Debug)]
pub struct City {
    pub geoname_id: Option<u32>,
    pub names: Option<Vec<(String, String)>>,
}

/// The value binds into [`City`]: every present field has the right shape.
pub open spec fn spec_city_ok(sv: SpecVal) -> bool {
    match sv {
        SpecVal::Dict(es) => {
            &&& spec_opt_u32(es, "geoname_id"@) is Ok
            &&& spec_opt_text_map(es, "names"@) is Ok
        },
        _ => false,
    }
}

/// `c` holds exactly what the value's fields bind to.
pub open spec fn spec_city_matches(sv: SpecVal, c: City) -> bool {
    match sv {
        SpecVal::Dict(es) => {
            &&& spec_opt_u32(es, "geoname_id"@) == Ok::<_, ()>(c.geoname_id)
            &&& spec_opt_text_map(es, "names"@) == Ok::<_, ()>(view_opt_pairs(c.names))
        },
        _ => false,
    }
}

impl City {
    /// Binds a decoded record into this shape: present fields must
    /// have the shape the field declares, absent fields stay `None`.
    pub fn from_value(v: &Value) -> (r: Result<City, MaxMindDBError>)
        ensures
            r is Ok <==> spec_city_ok(v@),
            r matches Ok(c) ==> spec_city_matches(v@, c),
            r matches Err(e) ==> e is DecodingError,
    {
        let entries = match v {
            Value::Dict(es) => es,
            _ => {
                return Err(record_error("record is not a map"));
            },
        };
        let geoname_id = match opt_u32(entries, "geoname_id") {
            Ok(x) => x,
            Err(e) => {
                return Err(e);
            },
        };
        let names = match opt_text_map(entries, "names") {
            Ok(x) => x,
            Err(e) => {
                return Err(e);
            },
        };
        Ok(City {
            geoname_id,
            names,
        })
    }
}

/// GeoIP2 Location record; the coordinates are carried as IEEE 754 bit patterns.
#[derive(Debug)]
pub struct Location {
    pub accuracy_radius: Option<u16>,
    pub latitude: Option<u64>,
    pub longitude: Option<u64>,
    pub metro_code: Option<u16>,
    pub time_zone: Option<String>,
}

/// The value binds into [`Location`]: every present field has the right shape.
pub open spec fn spec_location_ok(sv: SpecVal) -> bool {
    match sv {
        SpecVal::Dict(es) => {
            &&& spec_opt_u16(es, "accuracy_radius"@) is Ok
            &&& spec_opt_double_bits(es, "latitude"@) is Ok
            &&& spec_opt_double_bits(es, "longitude"@) is Ok
            &&& spec_opt_u16(es, "metro_code"@) is Ok
            &&& spec_opt_text(es, "time_zone"@) is Ok
        },
        _ => false,
    }
}

/// `c` holds exactly what the value's fields bind to.
pub open spec fn spec_location_matches(sv: SpecVal, c: Location) -> bool {
    match sv {
        SpecVal::Dict(es) => {
            &&& spec_opt_u16(es, "accuracy_radius"@) == Ok::<_, ()>(c.accuracy_radius)
            &&& spec_opt_double_bits(es, "latitude"@) == Ok::<_, ()>(c.latitude)
            &&& spec_opt_double_bits(es, "longitude"@) == Ok::<_, ()>(c.longitude)
            &&& spec_opt_u16(es, "metro_code"@) == Ok::<_, ()>(c.metro_code)
            &&& spec_opt_text(es, "time_zone"@) == Ok::<_, ()>(view_opt_string(c.time_zone))
        },
        _ => false,
    }
}

impl Location {
    /// Binds a decoded record into this shape: present fields must
    /// have the shape the field declares, absent fields stay `None`.
    pub fn from_value(v: &Value) -> (r: Result<Location, MaxMindDBError>)
        ensures
            r is Ok <==> spec_location_ok(v@),
            r matches Ok(c) ==> spec_location_matches(v@, c),
            r matches Err(e) ==> e is DecodingError,
    {
        let entries = match v {
            Value::Dict(es) => es,
            _ => {
                return Err(record_error("record is not a map"));
            },
        };
        let accuracy_radius = match opt_u16(entries, "accuracy_radius") {
            Ok(x) => x,
            Err(e) => {
                return Err(e);
            },
        };
        let latitude = match opt_double_bits(entries, "latitude") {
            Ok(x) => x,
            Err(e) => {
                return Err(e);
            },
        };
        let longitude = match opt_double_bits(entries, "longitude") {
            Ok(x) => x,
            Err(e) => {
                return Err(e);
            },
        };
        let metro_code = match opt_u16(entries, "metro_code") {
            Ok(x) => x,
            Err(e) => {
                return Err(e);
            },
        };
        let time_zone = match opt_text(entries, "time_zone") {
            Ok(x) => x,
            Err(e) => {
                return Err(e);
            },
        };
        Ok(Location {
            accuracy_radius,
            latitude,
            longitude,
            metro_code,
            time_zone,
        })
    }
}

/// GeoIP2 Postal record.
#[derive(Debug)]
pub struct Postal {
    pub code: Option<String>,
}

/// The value binds into [`Postal`]: every present field has the right shape.
pub open spec fn spec_postal_ok(sv: SpecVal) -> bool {
    match sv {
        SpecVal::Dict(es) => {
            &&& spec_opt_text(es, "code"@) is Ok
        },
        _ => false,
    }
}

/// `c` holds exactly what the value's fields bind to.
pub open spec fn spec_postal_matches(sv: SpecVal, c: Postal) -> bool {
    match sv {
        SpecVal::Dict(es) => {
            &&& spec_opt_text(es, "code"@) == Ok::<_, ()>(view_opt_string(c.code))
        },
        _ => false,
    }
}

impl Postal {
    /// Binds a decoded record into this shape: present fields must
    /// have the shape the field declares, absent fields stay `None`.
    pub fn from_value(v: &Value) -> (r: Result<Postal, MaxMindDBError>)
        ensures
            r is Ok <==> spec_postal_ok(v@),
            r matches Ok(c) ==> spec_postal_matches(v@, c),
            r matches Err(e) ==> e is DecodingError,
    {
        let entries = match v {
            Value::Dict(es) => es,
            _ => {
                return Err(record_error("record is not a map"));
            },
        };
        let code = match opt_text(entries, "code") {
            Ok(x) => x,
            Err(e) => {
                return Err(e);
            },
        };
        Ok(Postal {
            code,
        })
    }
}

/// GeoIP2 Subdivision record.
#[derive(Debug)]
pub struct Subdivision {
    pub geoname_id: Option<u32>,
    pub iso_code: Option<String>,
    pub names: Option<Vec<(String, String)>>,
}

/// The value binds into [`Subdivision`]: every present field has the right shape.
pub open spec fn spec_subdivision_ok(sv: SpecVal) -> bool {
    match sv {
        SpecVal::Dict(es) => {
            &&& spec_opt_u32(es, "geoname_id"@) is Ok
            &&& spec_opt_text(es, "iso_code"@) is Ok
            &&& spec_opt_text_map(es, "names"@) is Ok
        },
        _ => false,
    }
}

/// `c` holds exactly what the value's fields bind to.
pub open spec fn spec_subdivision_matches(sv: SpecVal, c: Subdivision) -> bool {
    match sv {
        SpecVal::Dict(es) => {
            &&& spec_opt_u32(es, "geoname_id"@) == Ok::<_, ()>(c.geoname_id)
            &&& spec_opt_text(es, "iso_code"@) == Ok::<_, ()>(view_opt_string(c.iso_code))
            &&& spec_opt_text_map(es, "names"@) == Ok::<_, ()>(view_opt_pairs(c.names))
        },
        _ => false,
    }
}

impl Subdivision {
    /// Binds a decoded record into this shape: present fields must
    /// have the shape the field declares, absent fields stay `None`.
    pub fn from_value(v: &Value) -> (r: Result<Subdivision, MaxMindDBError>)
        ensures
            r is Ok <==> spec_subdivision_ok(v@),
            r matches Ok(c) ==> spec_subdivision_matches(v@, c),
            r matches Err(e) ==> e is DecodingError,
    {
        let entries = match v {
            Value::Dict(es) => es,
            _ => {
                return Err(record_error("record is not a map"));
            },
        };
        let geoname_id = match opt_u32(entries, "geoname_id") {
            Ok(x) => x,
            Err(e) => {
                return Err(e);
            },
        };
        let iso_code = match opt_text(entries, "iso_code") {
            Ok(x) => x,
            Err(e) => {
                return Err(e);
            },
        };
        let names = match opt_text_map(entries, "names") {
            Ok(x) => x,
            Err(e) => {
                return Err(e);
            },
        };
        Ok(Subdivision {
            geoname_id,
            iso_code,
            names,
        })
    }
}

} // verus!
