//! The country-level record shapes: continent, country and the traits
//! shared by country and city records.

use vstd::prelude::*;

use crate::error::MaxMindDBError;
use crate::geoip2::{opt_bool, opt_text, opt_text_map, opt_u32, record_error, spec_opt_bool, spec_opt_text, spec_opt_text_map, spec_opt_u32, view_opt_pairs, view_opt_string};
use crate::value::{SpecVal, Value};

verus! {

/// GeoIP2 Continent record.
#[derive(Debug)]
pub struct Continent {
    pub code: Option<String>,
    pub geoname_id: Option<u32>,
    pub names: Option<Vec<(String, String)>>,
}

/// The value binds into [`Continent`]: every present field has the right shape.
pub open spec fn spec_continent_ok(sv: SpecVal) -> bool {
    match sv {
        SpecVal::Dict(es) => {
            &&& spec_opt_text(es, "code"@) is Ok
            &&& spec_opt_u32(es, "geoname_id"@) is Ok
            &&& spec_opt_text_map(es, "names"@) is Ok
        },
        _ => false,
    }
}

/// `c` holds exactly what the value's fields bind to.
pub open spec fn spec_continent_matches(sv: SpecVal, c: Continent) -> bool {
    match sv {
        SpecVal::Dict(es) => {
            &&& spec_opt_text(es, "code"@) == Ok::<_, ()>(view_opt_string(c.code))
            &&& spec_opt_u32(es, "geoname_id"@) == Ok::<_, ()>(c.geoname_id)
            &&& spec_opt_text_map(es, "names"@) == Ok::<_, ()>(view_opt_pairs(c.names))
        },
        _ => false,
    }
}

impl Continent {
    /// Binds a decoded record into this shape: present fields must
    /// have the shape the field declares, absent fields stay `None`.
    pub fn from_value(v: &Value) -> (r: Result<Continent, MaxMindDBError>)
        ensures
            r is Ok <==> spec_continent_ok(v@),
            r matches Ok(c) ==> spec_continent_matches(v@, c),
            r matches Err(e) ==> e is DecodingError,
    {
        let entries = match v {
            Value::Dict(es) => es,
            _ => {
                return Err(record_error("record is not a map"));
            },
        };
        let code = match opt_text(entries, "code") {
            Ok(x) => x,
            Err(e) => {
                return Err(e);
            },
        };
        let geoname_id = match opt_u32(entries, "geoname_id") {
            Ok(x) => x,
            Err(e) => {
                return Err(e);
            },
        };
        let names = match opt_text_map(entries, "names") {
            Ok(x) => x,
            Err(e) => {
                return Err(e);
            },
        };
        Ok(Continent {
            code,
            geoname_id,
            names,
        })
    }
}

/// GeoIP2 Country record.
#[derive(Debug)]
pub struct Country {
    pub geoname_id: Option<u32>,
    pub is_in_european_union: Option<bool>,
    pub iso_code: Option<String>,
    pub names: Option<Vec<(String, String)>>,
}

/// The value binds into [`Country`]: every present field has the right shape.
pub open spec fn spec_country_ok(sv: SpecVal) -> bool {
    match sv {
        SpecVal::Dict(es) => {
            &&& spec_opt_u32(es, "geoname_id"@) is Ok
            &&& spec_opt_bool(es, "is_in_european_union"@) is Ok
            &&& spec_opt_text(es, "iso_code"@) is Ok
            &&& spec_opt_text_map(es, "names"@) is Ok
        },
        _ => false,
    }
}

/// `c` holds exactly what the value's fields bind to.
pub open spec fn spec_country_matches(sv: SpecVal, c: Country) -> bool {
    match sv {
        SpecVal::Dict(es) => {
            &&& spec_opt_u32(es, "geoname_id"@) == Ok::<_, ()>(c.geoname_id)
            &&& spec_opt_bool(es, "is_in_european_union"@) == Ok::<_, ()>(c.is_in_european_union)
            &&& spec_opt_text(es, "iso_code"@) == Ok::<_, ()>(view_opt_string(c.iso_code))
            &&& spec_opt_text_map(es, "names"@) == Ok::<_, ()>(view_opt_pairs(c.names))
        },
        _ => false,
    }
}

impl Country {
    /// Binds a decoded record into this shape: present fields must
    /// have the shape the field declares, absent fields stay `None`.
    pub fn from_value(v: &Value) -> (r: Result<Country, MaxMindDBError>)
        ensures
            r is Ok <==> spec_country_ok(v@),
            r matches Ok(c) ==> spec_country_matches(v@, c),
            r matches Err(e) ==> e is DecodingError,
    {
        let entries = match v {
            Value::Dict(es) => es,
            _ => {
                return Err(record_error("record is not a map"));
            },
        };
        let geoname_id = match opt_u32(entries, "geoname_id") {
            Ok(x) => x,
            Err(e) => {
                return Err(e);
            },
        };
        let is_in_european_union = match opt_bool(entries, "is_in_european_union") {
            Ok(x) => x,
            Err(e) => {
                return Err(e);
            },
        };
        let iso_code = match opt_text(entries, "iso_code") {
            Ok(x) => x,
            Err(e) => {
                return Err(e);
            },
        };
        let names = match opt_text_map(entries, "names") {
            Ok(x) => x,
            Err(e) => {
                return Err(e);
            },
        };
        Ok(Country {
            geoname_id,
            is_in_european_union,
            iso_code,
            names,
        })
    }
}

/// GeoIP2 RepresentedCountry record.
#[derive(Debug)]
pub struct RepresentedCountry {
    pub geoname_id: Option<u32>,
    pub is_in_european_union: Option<bool>,
    pub iso_code: Option<String>,
    pub names: Option<Vec<(String, String)>>,
    pub representation_type: Option<String>,
}

/// The value binds into [`RepresentedCountry`]: every present field has the right shape.
pub open spec fn spec_represented_country_ok(sv: SpecVal) -> bool {
    match sv {
        SpecVal::Dict(es) => {
            &&& spec_opt_u32(es, "geoname_id"@) is Ok
            &&& spec_opt_bool(es, "is_in_european_union"@) is Ok
            &&& spec_opt_text(es, "iso_code"@) is Ok
            &&& spec_opt_text_map(es, "names"@) is Ok
            &&& spec_opt_text(es, "type"@) is Ok
        },
        _ => false,
    }
}

/// `c` holds exactly what the value's fields bind to.
pub open spec fn spec_represented_country_matches(sv: SpecVal, c: RepresentedCountry) -> bool {
    match sv {
        SpecVal::Dict(es) => {
            &&& spec_opt_u32(es, "geoname_id"@) == Ok::<_, ()>(c.geoname_id)
            &&& spec_opt_bool(es, "is_in_european_union"@) == Ok::<_, ()>(c.is_in_european_union)
            &&& spec_opt_text(es, "iso_code"@) == Ok::<_, ()>(view_opt_string(c.iso_code))
            &&& spec_opt_text_map(es, "names"@) == Ok::<_, ()>(view_opt_pairs(c.names))
            &&& spec_opt_text(es, "type"@) == Ok::<_, ()>(view_opt_string(c.representation_type))
        },
        _ => false,
    }
}

impl RepresentedCountry {
    /// Binds a decoded record into this shape: present fields must
    /// have the shape the field declares, absent fields stay `None`.
    pub fn from_value(v: &Value) -> (r: Result<RepresentedCountry, MaxMindDBError>)
        ensures
            r is Ok <==> spec_represented_country_ok(v@),
            r matches Ok(c) ==> spec_represented_country_matches(v@, c),
            r matches Err(e) ==> e is DecodingError,
    {
        let entries = match v {
            Value::Dict(es) => es,
            _ => {
                return Err(record_error("record is not a map"));
            },
        };
        let geoname_id = match opt_u32(entries, "geoname_id") {
            Ok(x) => x,
            Err(e) => {
                return Err(e);
            },
        };
        let is_in_european_union = match opt_bool(entries, "is_in_european_union") {
            Ok(x) => x,
            Err(e) => {
                return Err(e);
            },
        };
        let iso_code = match opt_text(entries, "iso_code") {
            Ok(x) => x,
            Err(e) => {
                return Err(e);
            },
        };
        let names = match opt_text_map(entries, "names") {
            Ok(x) => x,
            Err(e) => {
                return Err(e);
            },
        };
        let representation_type = match opt_text(entries, "type") {
            Ok(x) => x,
            Err(e) => {
                return Err(e);
            },
        };
        Ok(RepresentedCountry {
            geoname_id,
            is_in_european_union,
            iso_code,
            names,
            representation_type,
        })
    }
}

/// GeoIP2 Traits record.
#[derive(Debug)]
pub struct Traits {
    pub is_anonymous_proxy: Option<bool>,
    pub is_satellite_provider: Option<bool>,
}

/// The value binds into [`Traits`]: every present field has the right shape.
pub open spec fn spec_traits_ok(sv: SpecVal) -> bool {
    match sv {
        SpecVal::Dict(es) => {
            &&& spec_opt_bool(es, "is_anonymous_proxy"@) is Ok
            &&& spec_opt_bool(es, "is_satellite_provider"@) is Ok
        },
        _ => false,
    }
}

/// `c` holds exactly what the value's fields bind to.
pub open spec fn spec_traits_matches(sv: SpecVal, c: Traits) -> bool {
    match sv {
        SpecVal::Dict(es) => {
            &&& spec_opt_bool(es, "is_anonymous_proxy"@) == Ok::<_, ()>(c.is_anonymous_proxy)
            &&& spec_opt_bool(es, "is_satellite_provider"@) == Ok::<_, ()>(c.is_satellite_provider)
        },
        _ => false,
    }
}

impl Traits {
    /// Binds a decoded record into this shape: present fields must
    /// have the shape the field declares, absent fields stay `None`.
    pub fn from_value(v: &Value) -> (r: Result<Traits, MaxMindDBError>)
        ensures
            r is Ok <==> spec_traits_ok(v@),
            r matches Ok(c) ==> spec_traits_matches(v@, c),
            r matches Err(e) ==> e is DecodingError,
    {
        let entries = match v {
            Value::Dict(es) => es,
            _ => {
                return Err(record_error("record is not a map"));
            },
        };
        let is_anonymous_proxy = match opt_bool(entries, "is_anonymous_proxy") {
            Ok(x) => x,
            Err(e) => {
                return Err(e);
            },
        };
        let is_satellite_provider = match opt_bool(entries, "is_satellite_provider") {
            Ok(x) => x,
            Err(e) => {
                return Err(e);
            },
        };
        Ok(Traits {
            is_anonymous_proxy,
            is_satellite_provider,
        })
    }
}

} // verus!
