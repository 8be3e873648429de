//! The GeoIP2 record shapes and their bindings from decoded value trees.
//!
//! Every field is optional: a field absent from the record stays `None`,
//! a field present with the wrong shape is a decoding error, mirroring a
//! shape-directed binding.

pub mod city;
pub mod country;
pub mod enterprise;

use vstd::prelude::*;
use vstd::string::StringExecFns;

use crate::error::MaxMindDBError;
use crate::metadata::{
    spec_as_u64, spec_text_map, text_map_entries, value_as_u64, view_string_pairs,
};
use crate::value::{dict_get, lemma_view_items_index, spec_dict_get, view_entries, view_items,
    SpecVal, Value};

verus! {

/// The view of an optional string.
pub open spec fn view_opt_string(o: Option<String>) -> Option<Seq<char>> {
    match o {
        Some(s) => Some(s@),
        None => None,
    }
}

/// The view of an optional vector of string pairs.
pub open spec fn view_opt_pairs(o: Option<Vec<(String, String)>>) -> Option<
    Seq<(Seq<char>, Seq<char>)>,
> {
    match o {
        Some(v) => Some(view_string_pairs(v@)),
        None => None,
    }
}

/// The optional unsigned field under `key`: absent, present as an unsigned
/// integer, or a shape error.
pub open spec fn spec_opt_u64(es: Seq<(Seq<char>, SpecVal)>, key: Seq<char>) -> Result<
    Option<u64>,
    (),
> {
    match spec_dict_get(es, key) {
        None => Ok(None),
        Some(v) => match spec_as_u64(v) {
            Some(n) => Ok(Some(n)),
            None => Err(()),
        },
    }
}

/// The optional unsigned field under `key`, within `u32`.
pub open spec fn spec_opt_u32(es: Seq<(Seq<char>, SpecVal)>, key: Seq<char>) -> Result<
    Option<u32>,
    (),
> {
    match spec_opt_u64(es, key) {
        Ok(Some(n)) => if n <= 0xffffffff {
            Ok(Some(n as u32))
        } else {
            Err(())
        },
        Ok(None) => Ok(None),
        Err(e) => Err(e),
    }
}

/// The optional unsigned field under `key`, within `u16`.
pub open spec fn spec_opt_u16(es: Seq<(Seq<char>, SpecVal)>, key: Seq<char>) -> Result<
    Option<u16>,
    (),
> {
    match spec_opt_u64(es, key) {
        Ok(Some(n)) => if n <= 0xffff {
            Ok(Some(n as u16))
        } else {
            Err(())
        },
        Ok(None) => Ok(None),
        Err(e) => Err(e),
    }
}

/// The optional unsigned field under `key`, within `u8`.
pub open spec fn spec_opt_u8(es: Seq<(Seq<char>, SpecVal)>, key: Seq<char>) -> Result<
    Option<u8>,
    (),
> {
    match spec_opt_u64(es, key) {
        Ok(Some(n)) => if n <= 0xff {
            Ok(Some(n as u8))
        } else {
            Err(())
        },
        Ok(None) => Ok(None),
        Err(e) => Err(e),
    }
}

/// The optional boolean field under `key`.
pub open spec fn spec_opt_bool(es: Seq<(Seq<char>, SpecVal)>, key: Seq<char>) -> Result<
    Option<bool>,
    (),
> {
    match spec_dict_get(es, key) {
        None => Ok(None),
        Some(SpecVal::Bool(b)) => Ok(Some(b)),
        Some(_) => Err(()),
    }
}

/// The optional string field under `key`.
pub open spec fn spec_opt_text(es: Seq<(Seq<char>, SpecVal)>, key: Seq<char>) -> Result<
    Option<Seq<char>>,
    (),
> {
    match spec_dict_get(es, key) {
        None => Ok(None),
        Some(SpecVal::Text(t)) => Ok(Some(t)),
        Some(_) => Err(()),
    }
}

/// The optional 64-bit float field under `key`, as its bit pattern.
pub open spec fn spec_opt_double_bits(es: Seq<(Seq<char>, SpecVal)>, key: Seq<char>) -> Result<
    Option<u64>,
    (),
> {
    match spec_dict_get(es, key) {
        None => Ok(None),
        Some(SpecVal::DoubleBits(b)) => Ok(Some(b)),
        Some(_) => Err(()),
    }
}

/// The optional string-to-string map field under `key`.
pub open spec fn spec_opt_text_map(es: Seq<(Seq<char>, SpecVal)>, key: Seq<char>) -> Result<
    Option<Seq<(Seq<char>, Seq<char>)>>,
    (),
> {
    match spec_dict_get(es, key) {
        None => Ok(None),
        Some(SpecVal::Dict(inner)) => match spec_text_map(inner) {
            Some(m) => Ok(Some(m)),
            None => Err(()),
        },
        Some(_) => Err(()),
    }
}

/// The shape error a record binding reports.
pub(crate) fn record_error(what: &str) -> (e: MaxMindDBError)
    ensures
        e is DecodingError,
{
    MaxMindDBError::DecodingError("could not decode field ".to_owned().concat(what))
}

/// Reads the optional unsigned field under `key`.
pub(crate) fn opt_u64(entries: &Vec<(String, Value)>, key: &str) -> (r: Result<
    Option<u64>,
    MaxMindDBError,
>)
    ensures
        match r {
            Ok(o) => spec_opt_u64(view_entries(entries@), key@) == Ok::<_, ()>(o),
            Err(e) => {
                &&& spec_opt_u64(view_entries(entries@), key@) is Err
                &&& e is DecodingError
            },
        },
{
    match dict_get(entries, key) {
        None => Ok(None),
        Some(v) => match value_as_u64(v) {
            Some(n) => Ok(Some(n)),
            None => Err(record_error(key)),
        },
    }
}

/// Reads the optional unsigned field under `key`, within `u32`.
pub(crate) fn opt_u32(entries: &Vec<(String, Value)>, key: &str) -> (r: Result<
    Option<u32>,
    MaxMindDBError,
>)
    ensures
        match r {
            Ok(o) => spec_opt_u32(view_entries(entries@), key@) == Ok::<_, ()>(o),
            Err(e) => {
                &&& spec_opt_u32(view_entries(entries@), key@) is Err
                &&& e is DecodingError
            },
        },
{
    match opt_u64(entries, key) {
        Ok(Some(n)) => if n <= 0xffffffff {
            Ok(Some(n as u32))
        } else {
            Err(record_error(key))
        },
        Ok(None) => Ok(None),
        Err(e) => Err(e),
    }
}

/// Reads the optional unsigned field under `key`, within `u16`.
pub(crate) fn opt_u16(entries: &Vec<(String, Value)>, key: &str) -> (r: Result<
    Option<u16>,
    MaxMindDBError,
>)
    ensures
        match r {
            Ok(o) => spec_opt_u16(view_entries(entries@), key@) == Ok::<_, ()>(o),
            Err(e) => {
                &&& spec_opt_u16(view_entries(entries@), key@) is Err
                &&& e is DecodingError
            },
        },
{
    match opt_u64(entries, key) {
        Ok(Some(n)) => if n <= 0xffff {
            Ok(Some(n as u16))
        } else {
            Err(record_error(key))
        },
        Ok(None) => Ok(None),
        Err(e) => Err(e),
    }
}

/// Reads the optional unsigned field under `key`, within `u8`.
pub(crate) fn opt_u8(entries: &Vec<(String, Value)>, key: &str) -> (r: Result<
    Option<u8>,
    MaxMindDBError,
>)
    ensures
        match r {
            Ok(o) => spec_opt_u8(view_entries(entries@), key@) == Ok::<_, ()>(o),
            Err(e) => {
                &&& spec_opt_u8(view_entries(entries@), key@) is Err
                &&& e is DecodingError
            },
        },
{
    match opt_u64(entries, key) {
        Ok(Some(n)) => if n <= 0xff {
            Ok(Some(n as u8))
        } else {
            Err(record_error(key))
        },
        Ok(None) => Ok(None),
        Err(e) => Err(e),
    }
}

/// Reads the optional boolean field under `key`.
pub(crate) fn opt_bool(entries: &Vec<(String, Value)>, key: &str) -> (r: Result<
    Option<bool>,
    MaxMindDBError,
>)
    ensures
        match r {
            Ok(o) => spec_opt_bool(view_entries(entries@), key@) == Ok::<_, ()>(o),
            Err(e) => {
                &&& spec_opt_bool(view_entries(entries@), key@) is Err
                &&& e is DecodingError
            },
        },
{
    match dict_get(entries, key) {
        None => Ok(None),
        Some(v) => match v {
            Value::Bool(b) => Ok(Some(*b)),
            _ => Err(record_error(key)),
        },
    }
}

/// Reads the optional string field under `key`.
pub(crate) fn opt_text(entries: &Vec<(String, Value)>, key: &str) -> (r: Result<
    Option<String>,
    MaxMindDBError,
>)
    ensures
        match r {
            Ok(o) => spec_opt_text(view_entries(entries@), key@) == Ok::<_, ()>(
                view_opt_string(o),
            ),
            Err(e) => {
                &&& spec_opt_text(view_entries(entries@), key@) is Err
                &&& e is DecodingError
            },
        },
{
    match dict_get(entries, key) {
        None => Ok(None),
        Some(v) => match v {
            Value::Text(s) => Ok(Some(s.clone())),
            _ => Err(record_error(key)),
        },
    }
}

/// Reads the optional 64-bit float field under `key`, as its bit pattern.
pub(crate) fn opt_double_bits(entries: &Vec<(String, Value)>, key: &str) -> (r: Result<
    Option<u64>,
    MaxMindDBError,
>)
    ensures
        match r {
            Ok(o) => spec_opt_double_bits(view_entries(entries@), key@) == Ok::<_, ()>(o),
            Err(e) => {
                &&& spec_opt_double_bits(view_entries(entries@), key@) is Err
                &&& e is DecodingError
            },
        },
{
    match dict_get(entries, key) {
        None => Ok(None),
        Some(v) => match v {
            Value::DoubleBits(b) => Ok(Some(*b)),
            _ => Err(record_error(key)),
        },
    }
}

/// Reads the optional string-to-string map field under `key`.
pub(crate) fn opt_text_map(entries: &Vec<(String, Value)>, key: &str) -> (r: Result<
    Option<Vec<(String, String)>>,
    MaxMindDBError,
>)
    ensures
        match r {
            Ok(o) => spec_opt_text_map(view_entries(entries@), key@) == Ok::<_, ()>(
                view_opt_pairs(o),
            ),
            Err(e) => {
                &&& spec_opt_text_map(view_entries(entries@), key@) is Err
                &&& e is DecodingError
            },
        },
{
    match dict_get(entries, key) {
        None => Ok(None),
        Some(v) => match v {
            Value::Dict(inner) => match text_map_entries(inner) {
                Some(m) => Ok(Some(m)),
                None => Err(record_error(key)),
            },
            _ => Err(record_error(key)),
        },
    }
}

/// GeoIP2 Country record.
#[derive(Debug)]
pub struct Country {
    pub continent: Option<country::Continent>,
    pub country: Option<country::Country>,
    pub registered_country: Option<country::Country>,
    pub represented_country: Option<country::RepresentedCountry>,
    pub traits: Option<country::Traits>,
}

/// The value binds into [`Country`]: every present field has the right shape.
pub open spec fn spec_country_ok(sv: SpecVal) -> bool {
    match sv {
        SpecVal::Dict(es) => {
            &&& (match spec_dict_get(es, "continent"@) {
                Some(sub) => country::spec_continent_ok(sub),
                None => true,
            })
            &&& (match spec_dict_get(es, "country"@) {
                Some(sub) => country::spec_country_ok(sub),
                None => true,
            })
            &&& (match spec_dict_get(es, "registered_country"@) {
                Some(sub) => country::spec_country_ok(sub),
                None => true,
            })
            &&& (match spec_dict_get(es, "represented_country"@) {
                Some(sub) => country::spec_represented_country_ok(sub),
                None => true,
            })
            &&& (match spec_dict_get(es, "traits"@) {
                Some(sub) => country::spec_traits_ok(sub),
                None => true,
            })
        },
        _ => false,
    }
}

/// `c` holds exactly what the value's fields bind to.
pub open spec fn spec_country_matches(sv: SpecVal, c: Country) -> bool {
    match sv {
        SpecVal::Dict(es) => {
            &&& (match spec_dict_get(es, "continent"@) {
                Some(sub) => c.continent matches Some(x) && country::spec_continent_matches(sub, x),
                None => c.continent is None,
            })
            &&& (match spec_dict_get(es, "country"@) {
                Some(sub) => c.country matches Some(x) && country::spec_country_matches(sub, x),
                None => c.country is None,
            })
            &&& (match spec_dict_get(es, "registered_country"@) {
                Some(sub) => c.registered_country matches Some(x) && country::spec_country_matches(sub, x),
                None => c.registered_country is None,
            })
            &&& (match spec_dict_get(es, "represented_country"@) {
                Some(sub) => c.represented_country matches Some(x) && country::spec_represented_country_matches(sub, x),
                None => c.represented_country is None,
            })
            &&& (match spec_dict_get(es, "traits"@) {
                Some(sub) => c.traits matches Some(x) && country::spec_traits_matches(sub, x),
                None => c.traits is None,
            })
        },
        _ => false,
    }
}

impl Country {
    /// Binds a decoded record into this shape: present fields must
    /// have the shape the field declares, absent fields stay `None`.
    pub fn from_value(v: &Value) -> (r: Result<Country, MaxMindDBError>)
        ensures
            r is Ok <==> spec_country_ok(v@),
            r matches Ok(c) ==> spec_country_matches(v@, c),
            r matches Err(e) ==> e is DecodingError,
    {
        let entries = match v {
            Value::Dict(es) => es,
            _ => {
                return Err(record_error("record is not a map"));
            },
        };
        let continent = match dict_get(entries, "continent") {
            None => None,
            Some(sub) => Some(
                match country::Continent::from_value(sub) {
                    Ok(x) => x,
                    Err(e) => {
                        return Err(e);
                    },
                },
            ),
        };
        let country = match dict_get(entries, "country") {
            None => None,
            Some(sub) => Some(
                match country::Country::from_value(sub) {
                    Ok(x) => x,
                    Err(e) => {
                        return Err(e);
                    },
                },
            ),
        };
        let registered_country = match dict_get(entries, "registered_country") {
            None => None,
            Some(sub) => Some(
                match country::Country::from_value(sub) {
                    Ok(x) => x,
                    Err(e) => {
                        return Err(e);
                    },
                },
            ),
        };
        let represented_country = match dict_get(entries, "represented_country") {
            None => None,
            Some(sub) => Some(
                match country::RepresentedCountry::from_value(sub) {
                    Ok(x) => x,
                    Err(e) => {
                        return Err(e);
                    },
                },
            ),
        };
        let traits = match dict_get(entries, "traits") {
            None => None,
            Some(sub) => Some(
                match country::Traits::from_value(sub) {
                    Ok(x) => x,
                    Err(e) => {
                        return Err(e);
                    },
                },
            ),
        };
        Ok(Country {
            continent,
            country,
            registered_country,
            represented_country,
            traits,
        })
    }
}

/// GeoIP2 City record.
#[derive(Debug)]
pub struct City {
    pub city: Option<city::City>,
    pub continent: Option<city::Continent>,
    pub country: Option<city::Country>,
    pub location: Option<city::Location>,
    pub postal: Option<city::Postal>,
    pub registered_country: Option<city::Country>,
    pub represented_country: Option<city::RepresentedCountry>,
    pub subdivisions: Option<Vec<city::Subdivision>>,
    pub traits: Option<city::Traits>,
}

/// The value binds into [`City`]: every present field has the right shape.
pub open spec fn spec_city_ok(sv: SpecVal) -> bool {
    match sv {
        SpecVal::Dict(es) => {
            &&& (match spec_dict_get(es, "city"@) {
                Some(sub) => city::spec_city_ok(sub),
                None => true,
            })
            &&& (match spec_dict_get(es, "continent"@) {
                Some(sub) => city::spec_continent_ok(sub),
                None => true,
            })
            &&& (match spec_dict_get(es, "country"@) {
                Some(sub) => city::spec_country_ok(sub),
                None => true,
            })
            &&& (match spec_dict_get(es, "location"@) {
                Some(sub) => city::spec_location_ok(sub),
                None => true,
            })
            &&& (match spec_dict_get(es, "postal"@) {
                Some(sub) => city::spec_postal_ok(sub),
                None => true,
            })
            &&& (match spec_dict_get(es, "registered_country"@) {
                Some(sub) => city::spec_country_ok(sub),
                None => true,
            })
            &&& (match spec_dict_get(es, "represented_country"@) {
                Some(sub) => city::spec_represented_country_ok(sub),
                None => true,
            })
            &&& (match spec_dict_get(es, "subdivisions"@) {
                Some(SpecVal::Array(items)) => forall|i: int|
                    0 <= i < items.len() ==> city::spec_subdivision_ok(#[trigger] items[i]),
                Some(_) => false,
                None => true,
            })
            &&& (match spec_dict_get(es, "traits"@) {
                Some(sub) => city::spec_traits_ok(sub),
                None => true,
            })
        },
        _ => false,
    }
}

/// `c` holds exactly what the value's fields bind to.
pub open spec fn spec_city_matches(sv: SpecVal, c: City) -> bool {
    match sv {
        SpecVal::Dict(es) => {
            &&& (match spec_dict_get(es, "city"@) {
                Some(sub) => c.city matches Some(x) && city::spec_city_matches(sub, x),
                None => c.city is None,
            })
            &&& (match spec_dict_get(es, "continent"@) {
                Some(sub) => c.continent matches Some(x) && city::spec_continent_matches(sub, x),
                None => c.continent is None,
            })
            &&& (match spec_dict_get(es, "country"@) {
                Some(sub) => c.country matches Some(x) && city::spec_country_matches(sub, x),
                None => c.country is None,
            })
            &&& (match spec_dict_get(es, "location"@) {
                Some(sub) => c.location matches Some(x) && city::spec_location_matches(sub, x),
                None => c.location is None,
            })
            &&& (match spec_dict_get(es, "postal"@) {
                Some(sub) => c.postal matches Some(x) && city::spec_postal_matches(sub, x),
                None => c.postal is None,
            })
            &&& (match spec_dict_get(es, "registered_country"@) {
                Some(sub) => c.registered_country matches Some(x) && city::spec_country_matches(sub, x),
                None => c.registered_country is None,
            })
            &&& (match spec_dict_get(es, "represented_country"@) {
                Some(sub) => c.represented_country matches Some(x) && city::spec_represented_country_matches(sub, x),
                None => c.represented_country is None,
            })
            &&& (match spec_dict_get(es, "subdivisions"@) {
                Some(SpecVal::Array(items)) => c.subdivisions matches Some(vs) && vs@.len()
                    == items.len() && (forall|i: int|
                    0 <= i < items.len() ==> city::spec_subdivision_matches(#[trigger] items[i], vs@[i])),
                Some(_) => false,
                None => c.subdivisions is None,
            })
            &&& (match spec_dict_get(es, "traits"@) {
                Some(sub) => c.traits matches Some(x) && city::spec_traits_matches(sub, x),
                None => c.traits is None,
            })
        },
        _ => false,
    }
}

impl City {
    /// Binds a decoded record into this shape: present fields must
    /// have the shape the field declares, absent fields stay `None`.
    #[verifier::loop_isolation(false)]
    pub fn from_value(v: &Value) -> (r: Result<City, MaxMindDBError>)
        ensures
            r is Ok <==> spec_city_ok(v@),
            r matches Ok(c) ==> spec_city_matches(v@, c),
            r matches Err(e) ==> e is DecodingError,
    {
        let entries = match v {
            Value::Dict(es) => es,
            _ => {
                return Err(record_error("record is not a map"));
            },
        };
        let city = match dict_get(entries, "city") {
            None => None,
            Some(sub) => Some(
                match city::City::from_value(sub) {
                    Ok(x) => x,
                    Err(e) => {
                        return Err(e);
                    },
                },
            ),
        };
        let continent = match dict_get(entries, "continent") {
            None => None,
            Some(sub) => Some(
                match city::Continent::from_value(sub) {
                    Ok(x) => x,
                    Err(e) => {
                        return Err(e);
                    },
                },
            ),
        };
        let country = match dict_get(entries, "country") {
            None => None,
            Some(sub) => Some(
                match city::Country::from_value(sub) {
                    Ok(x) => x,
                    Err(e) => {
                        return Err(e);
                    },
                },
            ),
        };
        let location = match dict_get(entries, "location") {
            None => None,
            Some(sub) => Some(
                match city::Location::from_value(sub) {
                    Ok(x) => x,
                    Err(e) => {
                        return Err(e);
                    },
                },
            ),
        };
        let postal = match dict_get(entries, "postal") {
            None => None,
            Some(sub) => Some(
                match city::Postal::from_value(sub) {
                    Ok(x) => x,
                    Err(e) => {
                        return Err(e);
                    },
                },
            ),
        };
        let registered_country = match dict_get(entries, "registered_country") {
            None => None,
            Some(sub) => Some(
                match city::Country::from_value(sub) {
                    Ok(x) => x,
                    Err(e) => {
                        return Err(e);
                    },
                },
            ),
        };
        let represented_country = match dict_get(entries, "represented_country") {
            None => None,
            Some(sub) => Some(
                match city::RepresentedCountry::from_value(sub) {
                    Ok(x) => x,
                    Err(e) => {
                        return Err(e);
                    },
                },
            ),
        };
        let subdivisions = match dict_get(entries, "subdivisions") {
            None => None,
            Some(av) => match av {
                Value::Array(items) => {
                    let ghost sitems = view_items(items@);
                    proof {
                        lemma_view_items_index(items@);
                    }
                    let mut out: Vec<city::Subdivision> = Vec::new();
                    let n = items.len();
                    let mut i: usize = 0;
                    while i < n
                        invariant
                            n == items.len(),
                            0 <= i <= n,
                            sitems == view_items(items@),
                            sitems.len() == n,
                            forall|j: int| 0 <= j < n ==> sitems[j] == items@[j]@,
                            out@.len() == i,
                            forall|j: int|
                                0 <= j < i ==> city::spec_subdivision_ok(#[trigger] sitems[j])
                                    && city::spec_subdivision_matches(sitems[j], out@[j]),
                        decreases n - i,
                    {
                        let sub = match city::Subdivision::from_value(&items[i]) {
                            Ok(x) => x,
                            Err(e) => {
                                proof {
                                    assert(!spec_city_ok(v@)) by {
                                        if spec_city_ok(v@) {
                                            let items2 = spec_dict_get(
                                                v@->Dict_0,
                                                "subdivisions"@,
                                            )->Some_0->Array_0;
                                            assert(items2 == sitems);
                                            assert(city::spec_subdivision_ok(items2[i as int]));
                                            assert(!city::spec_subdivision_ok(sitems[i as int]));
                                        }
                                    }
                                }
                                return Err(e);
                            },
                        };
                        out.push(sub);
                        i = i + 1;
                    }
                    Some(out)
                },
                _ => {
                    return Err(record_error("subdivisions"));
                },
            },
        };
        let traits = match dict_get(entries, "traits") {
            None => None,
            Some(sub) => Some(
                match city::Traits::from_value(sub) {
                    Ok(x) => x,
                    Err(e) => {
                        return Err(e);
                    },
                },
            ),
        };
        Ok(City {
            city,
            continent,
            country,
            location,
            postal,
            registered_country,
            represented_country,
            subdivisions,
            traits,
        })
    }
}

/// GeoIP2 Enterprise record.
#[derive(Debug)]
pub struct Enterprise {
    pub city: Option<enterprise::City>,
    pub continent: Option<enterprise::Continent>,
    pub country: Option<enterprise::Country>,
    pub location: Option<enterprise::Location>,
    pub postal: Option<enterprise::Postal>,
    pub registered_country: Option<enterprise::Country>,
    pub represented_country: Option<enterprise::RepresentedCountry>,
    pub subdivisions: Option<Vec<enterprise::Subdivision>>,
    pub traits: Option<enterprise::Traits>,
}

/// The value binds into [`Enterprise`]: every present field has the right shape.
pub open spec fn spec_enterprise_ok(sv: SpecVal) -> bool {
    match sv {
        SpecVal::Dict(es) => {
            &&& (match spec_dict_get(es, "city"@) {
                Some(sub) => enterprise::spec_city_ok(sub),
                None => true,
            })
            &&& (match spec_dict_get(es, "continent"@) {
                Some(sub) => enterprise::spec_continent_ok(sub),
                None => true,
            })
            &&& (match spec_dict_get(es, "country"@) {
                Some(sub) => enterprise::spec_country_ok(sub),
                None => true,
            })
            &&& (match spec_dict_get(es, "location"@) {
                Some(sub) => enterprise::spec_location_ok(sub),
                None => true,
            })
            &&& (match spec_dict_get(es, "postal"@) {
                Some(sub) => enterprise::spec_postal_ok(sub),
                None => true,
            })
            &&& (match spec_dict_get(es, "registered_country"@) {
                Some(sub) => enterprise::spec_country_ok(sub),
                None => true,
            })
            &&& (match spec_dict_get(es, "represented_country"@) {
                Some(sub) => enterprise::spec_represented_country_ok(sub),
                None => true,
            })
            &&& (match spec_dict_get(es, "subdivisions"@) {
                Some(SpecVal::Array(items)) => forall|i: int|
                    0 <= i < items.len() ==> enterprise::spec_subdivision_ok(#[trigger] items[i]),
                Some(_) => false,
                None => true,
            })
            &&& (match spec_dict_get(es, "traits"@) {
                Some(sub) => enterprise::spec_traits_ok(sub),
                None => true,
            })
        },
        _ => false,
    }
}

/// `c` holds exactly what the value's fields bind to.
pub open spec fn spec_enterprise_matches(sv: SpecVal, c: Enterprise) -> bool {
    match sv {
        SpecVal::Dict(es) => {
            &&& (match spec_dict_get(es, "city"@) {
                Some(sub) => c.city matches Some(x) && enterprise::spec_city_matches(sub, x),
                None => c.city is None,
            })
            &&& (match spec_dict_get(es, "continent"@) {
                Some(sub) => c.continent matches Some(x) && enterprise::spec_continent_matches(sub, x),
                None => c.continent is None,
            })
            &&& (match spec_dict_get(es, "country"@) {
                Some(sub) => c.country matches Some(x) && enterprise::spec_country_matches(sub, x),
                None => c.country is None,
            })
            &&& (match spec_dict_get(es, "location"@) {
                Some(sub) => c.location matches Some(x) && enterprise::spec_location_matches(sub, x),
                None => c.location is None,
            })
            &&& (match spec_dict_get(es, "postal"@) {
                Some(sub) => c.postal matches Some(x) && enterprise::spec_postal_matches(sub, x),
                None => c.postal is None,
            })
            &&& (match spec_dict_get(es, "registered_country"@) {
                Some(sub) => c.registered_country matches Some(x) && enterprise::spec_country_matches(sub, x),
                None => c.registered_country is None,
            })
            &&& (match spec_dict_get(es, "represented_country"@) {
                Some(sub) => c.represented_country matches Some(x) && enterprise::spec_represented_country_matches(sub, x),
                None => c.represented_country is None,
            })
            &&& (match spec_dict_get(es, "subdivisions"@) {
                Some(SpecVal::Array(items)) => c.subdivisions matches Some(vs) && vs@.len()
                    == items.len() && (forall|i: int|
                    0 <= i < items.len() ==> enterprise::spec_subdivision_matches(#[trigger] items[i], vs@[i])),
                Some(_) => false,
                None => c.subdivisions is None,
            })
            &&& (match spec_dict_get(es, "traits"@) {
                Some(sub) => c.traits matches Some(x) && enterprise::spec_traits_matches(sub, x),
                None => c.traits is None,
            })
        },
        _ => false,
    }
}

impl Enterprise {
    /// Binds a decoded record into this shape: present fields must
    /// have the shape the field declares, absent fields stay `None`.
    #[verifier::loop_isolation(false)]
    pub fn from_value(v: &Value) -> (r: Result<Enterprise, MaxMindDBError>)
        ensures
            r is Ok <==> spec_enterprise_ok(v@),
            r matches Ok(c) ==> spec_enterprise_matches(v@, c),
            r matches Err(e) ==> e is DecodingError,
    {
        let entries = match v {
            Value::Dict(es) => es,
            _ => {
                return Err(record_error("record is not a map"));
            },
        };
        let city = match dict_get(entries, "city") {
            None => None,
            Some(sub) => Some(
                match enterprise::City::from_value(sub) {
                    Ok(x) => x,
                    Err(e) => {
                        return Err(e);
                    },
                },
            ),
        };
        let continent = match dict_get(entries, "continent") {
            None => None,
            Some(sub) => Some(
                match enterprise::Continent::from_value(sub) {
                    Ok(x) => x,
                    Err(e) => {
                        return Err(e);
                    },
                },
            ),
        };
        let country = match dict_get(entries, "country") {
            None => None,
            Some(sub) => Some(
                match enterprise::Country::from_value(sub) {
                    Ok(x) => x,
                    Err(e) => {
                        return Err(e);
                    },
                },
            ),
        };
        let location = match dict_get(entries, "location") {
            None => None,
            Some(sub) => Some(
                match enterprise::Location::from_value(sub) {
                    Ok(x) => x,
                    Err(e) => {
                        return Err(e);
                    },
                },
            ),
        };
        let postal = match dict_get(entries, "postal") {
            None => None,
            Some(sub) => Some(
                match enterprise::Postal::from_value(sub) {
                    Ok(x) => x,
                    Err(e) => {
                        return Err(e);
                    },
                },
            ),
        };
        let registered_country = match dict_get(entries, "registered_country") {
            None => None,
            Some(sub) => Some(
                match enterprise::Country::from_value(sub) {
                    Ok(x) => x,
                    Err(e) => {
                        return Err(e);
                    },
                },
            ),
        };
        let represented_country = match dict_get(entries, "represented_country") {
            None => None,
            Some(sub) => Some(
                match enterprise::RepresentedCountry::from_value(sub) {
                    Ok(x) => x,
                    Err(e) => {
                        return Err(e);
                    },
                },
            ),
        };
        let subdivisions = match dict_get(entries, "subdivisions") {
            None => None,
            Some(av) => match av {
                Value::Array(items) => {
                    let ghost sitems = view_items(items@);
                    proof {
                        lemma_view_items_index(items@);
                    }
                    let mut out: Vec<enterprise::Subdivision> = Vec::new();
                    let n = items.len();
                    let mut i: usize = 0;
                    while i < n
                        invariant
                            n == items.len(),
                            0 <= i <= n,
                            sitems == view_items(items@),
                            sitems.len() == n,
                            forall|j: int| 0 <= j < n ==> sitems[j] == items@[j]@,
                            out@.len() == i,
                            forall|j: int|
                                0 <= j < i ==> enterprise::spec_subdivision_ok(#[trigger] sitems[j])
                                    && enterprise::spec_subdivision_matches(sitems[j], out@[j]),
                        decreases n - i,
                    {
                        let sub = match enterprise::Subdivision::from_value(&items[i]) {
                            Ok(x) => x,
                            Err(e) => {
                                proof {
                                    assert(!spec_enterprise_ok(v@)) by {
                                        if spec_enterprise_ok(v@) {
                                            let items2 = spec_dict_get(
                                                v@->Dict_0,
                                                "subdivisions"@,
                                            )->Some_0->Array_0;
                                            assert(items2 == sitems);
                                            assert(enterprise::spec_subdivision_ok(items2[i as int]));
                                            assert(!enterprise::spec_subdivision_ok(sitems[i as int]));
                                        }
                                    }
                                }
                                return Err(e);
                            },
                        };
                        out.push(sub);
                        i = i + 1;
                    }
                    Some(out)
                },
                _ => {
                    return Err(record_error("subdivisions"));
                },
            },
        };
        let traits = match dict_get(entries, "traits") {
            None => None,
            Some(sub) => Some(
                match enterprise::Traits::from_value(sub) {
                    Ok(x) => x,
                    Err(e) => {
                        return Err(e);
                    },
                },
            ),
        };
        Ok(Enterprise {
            city,
            continent,
            country,
            location,
            postal,
            registered_country,
            represented_country,
            subdivisions,
            traits,
        })
    }
}

/// GeoIP2 Isp record.
#[derive(Debug)]
pub struct Isp {
    pub autonomous_system_number: Option<u32>,
    pub autonomous_system_organization: Option<String>,
    pub isp: Option<String>,
    pub mobile_country_code: Option<String>,
    pub mobile_network_code: Option<String>,
    pub organization: Option<String>,
}

/// The value binds into [`Isp`]: every present field has the right shape.
pub open spec fn spec_isp_ok(sv: SpecVal) -> bool {
    match sv {
        SpecVal::Dict(es) => {
            &&& spec_opt_u32(es, "autonomous_system_number"@) is Ok
            &&& spec_opt_text(es, "autonomous_system_organization"@) is Ok
            &&& spec_opt_text(es, "isp"@) is Ok
            &&& spec_opt_text(es, "mobile_country_code"@) is Ok
            &&& spec_opt_text(es, "mobile_network_code"@) is Ok
            &&& spec_opt_text(es, "organization"@) is Ok
        },
        _ => false,
    }
}

/// `c` holds exactly what the value's fields bind to.
pub open spec fn spec_isp_matches(sv: SpecVal, c: Isp) -> bool {
    match sv {
        SpecVal::Dict(es) => {
            &&& spec_opt_u32(es, "autonomous_system_number"@) == Ok::<_, ()>(c.autonomous_system_number)
            &&& spec_opt_text(es, "autonomous_system_organization"@) == Ok::<_, ()>(view_opt_string(c.autonomous_system_organization))
            &&& spec_opt_text(es, "isp"@) == Ok::<_, ()>(view_opt_string(c.isp))
            &&& spec_opt_text(es, "mobile_country_code"@) == Ok::<_, ()>(view_opt_string(c.mobile_country_code))
            &&& spec_opt_text(es, "mobile_network_code"@) == Ok::<_, ()>(view_opt_string(c.mobile_network_code))
            &&& spec_opt_text(es, "organization"@) == Ok::<_, ()>(view_opt_string(c.organization))
        },
        _ => false,
    }
}

impl Isp {
    /// Binds a decoded record into this shape: present fields must
    /// have the shape the field declares, absent fields stay `None`.
    pub fn from_value(v: &Value) -> (r: Result<Isp, MaxMindDBError>)
        ensures
            r is Ok <==> spec_isp_ok(v@),
            r matches Ok(c) ==> spec_isp_matches(v@, c),
            r matches Err(e) ==> e is DecodingError,
    {
        let entries = match v {
            Value::Dict(es) => es,
            _ => {
                return Err(record_error("record is not a map"));
            },
        };
        let autonomous_system_number = match opt_u32(entries, "autonomous_system_number") {
            Ok(x) => x,
            Err(e) => {
                return Err(e);
            },
        };
        let autonomous_system_organization = match opt_text(entries, "autonomous_system_organization") {
            Ok(x) => x,
            Err(e) => {
                return Err(e);
            },
        };
        let isp = match opt_text(entries, "isp") {
            Ok(x) => x,
            Err(e) => {
                return Err(e);
            },
        };
        let mobile_country_code = match opt_text(entries, "mobile_country_code") {
            Ok(x) => x,
            Err(e) => {
                return Err(e);
            },
        };
        let mobile_network_code = match opt_text(entries, "mobile_network_code") {
            Ok(x) => x,
            Err(e) => {
                return Err(e);
            },
        };
        let organization = match opt_text(entries, "organization") {
            Ok(x) => x,
            Err(e) => {
                return Err(e);
            },
        };
        Ok(Isp {
            autonomous_system_number,
            autonomous_system_organization,
            isp,
            mobile_country_code,
            mobile_network_code,
            organization,
        })
    }
}

/// GeoIP2 Connection-Type record.
#[derive(Debug)]
pub struct ConnectionType {
    pub connection_type: Option<String>,
}

/// The value binds into [`ConnectionType`]: every present field has the right shape.
pub open spec fn spec_connection_type_ok(sv: SpecVal) -> bool {
    match sv {
        SpecVal::Dict(es) => {
            &&& spec_opt_text(es, "connection_type"@) is Ok
        },
        _ => false,
    }
}

/// `c` holds exactly what the value's fields bind to.
pub open spec fn spec_connection_type_matches(sv: SpecVal, c: ConnectionType) -> bool {
    match sv {
        SpecVal::Dict(es) => {
            &&& spec_opt_text(es, "connection_type"@) == Ok::<_, ()>(view_opt_string(c.connection_type))
        },
        _ => false,
    }
}

impl ConnectionType {
    /// Binds a decoded record into this shape: present fields must
    /// have the shape the field declares, absent fields stay `None`.
    pub fn from_value(v: &Value) -> (r: Result<ConnectionType, MaxMindDBError>)
        ensures
            r is Ok <==> spec_connection_type_ok(v@),
            r matches Ok(c) ==> spec_connection_type_matches(v@, c),
            r matches Err(e) ==> e is DecodingError,
    {
        let entries = match v {
            Value::Dict(es) => es,
            _ => {
                return Err(record_error("record is not a map"));
            },
        };
        let connection_type = match opt_text(entries, "connection_type") {
            Ok(x) => x,
            Err(e) => {
                return Err(e);
            },
        };
        Ok(ConnectionType {
            connection_type,
        })
    }
}

/// GeoIP2 Anonymous-IP record.
#[derive(Debug)]
pub struct AnonymousIp {
    pub is_anonymous: Option<bool>,
    pub is_anonymous_vpn: Option<bool>,
    pub is_hosting_provider: Option<bool>,
    pub is_public_proxy: Option<bool>,
    pub is_residential_proxy: Option<bool>,
    pub is_tor_exit_node: Option<bool>,
}

/// The value binds into [`AnonymousIp`]: every present field has the right shape.
pub open spec fn spec_anonymous_ip_ok(sv: SpecVal) -> bool {
    match sv {
        SpecVal::Dict(es) => {
            &&& spec_opt_bool(es, "is_anonymous"@) is Ok
            &&& spec_opt_bool(es, "is_anonymous_vpn"@) is Ok
            &&& spec_opt_bool(es, "is_hosting_provider"@) is Ok
            &&& spec_opt_bool(es, "is_public_proxy"@) is Ok
            &&& spec_opt_bool(es, "is_residential_proxy"@) is Ok
            &&& spec_opt_bool(es, "is_tor_exit_node"@) is Ok
        },
        _ => false,
    }
}

/// `c` holds exactly what the value's fields bind to.
pub open spec fn spec_anonymous_ip_matches(sv: SpecVal, c: AnonymousIp) -> bool {
    match sv {
        SpecVal::Dict(es) => {
            &&& spec_opt_bool(es, "is_anonymous"@) == Ok::<_, ()>(c.is_anonymous)
            &&& spec_opt_bool(es, "is_anonymous_vpn"@) == Ok::<_, ()>(c.is_anonymous_vpn)
            &&& spec_opt_bool(es, "is_hosting_provider"@) == Ok::<_, ()>(c.is_hosting_provider)
            &&& spec_opt_bool(es, "is_public_proxy"@) == Ok::<_, ()>(c.is_public_proxy)
            &&& spec_opt_bool(es, "is_residential_proxy"@) == Ok::<_, ()>(c.is_residential_proxy)
            &&& spec_opt_bool(es, "is_tor_exit_node"@) == Ok::<_, ()>(c.is_tor_exit_node)
        },
        _ => false,
    }
}

impl AnonymousIp {
    /// Binds a decoded record into this shape: present fields must
    /// have the shape the field declares, absent fields stay `None`.
    pub fn from_value(v: &Value) -> (r: Result<AnonymousIp, MaxMindDBError>)
        ensures
            r is Ok <==> spec_anonymous_ip_ok(v@),
            r matches Ok(c) ==> spec_anonymous_ip_matches(v@, c),
            r matches Err(e) ==> e is DecodingError,
    {
        let entries = match v {
            Value::Dict(es) => es,
            _ => {
                return Err(record_error("record is not a map"));
            },
        };
        let is_anonymous = match opt_bool(entries, "is_anonymous") {
            Ok(x) => x,
            Err(e) => {
                return Err(e);
            },
        };
        let is_anonymous_vpn = match opt_bool(entries, "is_anonymous_vpn") {
            Ok(x) => x,
            Err(e) => {
                return Err(e);
            },
        };
        let is_hosting_provider = match opt_bool(entries, "is_hosting_provider") {
            Ok(x) => x,
            Err(e) => {
                return Err(e);
            },
        };
        let is_public_proxy = match opt_bool(entries, "is_public_proxy") {
            Ok(x) => x,
            Err(e) => {
                return Err(e);
            },
        };
        let is_residential_proxy = match opt_bool(entries, "is_residential_proxy") {
            Ok(x) => x,
            Err(e) => {
                return Err(e);
            },
        };
        let is_tor_exit_node = match opt_bool(entries, "is_tor_exit_node") {
            Ok(x) => x,
            Err(e) => {
                return Err(e);
            },
        };
        Ok(AnonymousIp {
            is_anonymous,
            is_anonymous_vpn,
            is_hosting_provider,
            is_public_proxy,
            is_residential_proxy,
            is_tor_exit_node,
        })
    }
}

/// GeoIP2 DensityIncome record.
#[derive(Debug)]
pub struct DensityIncome {
    pub average_income: Option<u32>,
    pub population_density: Option<u32>,
}

/// The value binds into [`DensityIncome`]: every present field has the right shape.
pub open spec fn spec_density_income_ok(sv: SpecVal) -> bool {
    match sv {
        SpecVal::Dict(es) => {
            &&& spec_opt_u32(es, "average_income"@) is Ok
            &&& spec_opt_u32(es, "population_density"@) is Ok
        },
        _ => false,
    }
}

/// `c` holds exactly what the value's fields bind to.
pub open spec fn spec_density_income_matches(sv: SpecVal, c: DensityIncome) -> bool {
    match sv {
        SpecVal::Dict(es) => {
            &&& spec_opt_u32(es, "average_income"@) == Ok::<_, ()>(c.average_income)
            &&& spec_opt_u32(es, "population_density"@) == Ok::<_, ()>(c.population_density)
        },
        _ => false,
    }
}

impl DensityIncome {
    /// Binds a decoded record into this shape: present fields must
    /// have the shape the field declares, absent fields stay `None`.
    pub fn from_value(v: &Value) -> (r: Result<DensityIncome, MaxMindDBError>)
        ensures
            r is Ok <==> spec_density_income_ok(v@),
            r matches Ok(c) ==> spec_density_income_matches(v@, c),
            r matches Err(e) ==> e is DecodingError,
    {
        let entries = match v {
            Value::Dict(es) => es,
            _ => {
                return Err(record_error("record is not a map"));
            },
        };
        let average_income = match opt_u32(entries, "average_income") {
            Ok(x) => x,
            Err(e) => {
                return Err(e);
            },
        };
        let population_density = match opt_u32(entries, "population_density") {
            Ok(x) => x,
            Err(e) => {
                return Err(e);
            },
        };
        Ok(DensityIncome {
            average_income,
            population_density,
        })
    }
}

/// GeoIP2 Domain record.
#[derive(Debug)]
pub struct Domain {
    pub domain: Option<String>,
}

/// The value binds into [`Domain`]: every present field has the right shape.
pub open spec fn spec_domain_ok(sv: SpecVal) -> bool {
    match sv {
        SpecVal::Dict(es) => {
            &&& spec_opt_text(es, "domain"@) is Ok
        },
        _ => false,
    }
}

/// `c` holds exactly what the value's fields bind to.
pub open spec fn spec_domain_matches(sv: SpecVal, c: Domain) -> bool {
    match sv {
        SpecVal::Dict(es) => {
            &&& spec_opt_text(es, "domain"@) == Ok::<_, ()>(view_opt_string(c.domain))
        },
        _ => false,
    }
}

impl Domain {
    /// Binds a decoded record into this shape: present fields must
    /// have the shape the field declares, absent fields stay `None`.
    pub fn from_value(v: &Value) -> (r: Result<Domain, MaxMindDBError>)
        ensures
            r is Ok <==> spec_domain_ok(v@),
            r matches Ok(c) ==> spec_domain_matches(v@, c),
            r matches Err(e) ==> e is DecodingError,
    {
        let entries = match v {
            Value::Dict(es) => es,
            _ => {
                return Err(record_error("record is not a map"));
            },
        };
        let domain = match opt_text(entries, "domain") {
            Ok(x) => x,
            Err(e) => {
                return Err(e);
            },
        };
        Ok(Domain {
            domain,
        })
    }
}

/// GeoIP2 ASN record.
#[derive(Debug)]
pub struct Asn {
    pub autonomous_system_number: Option<u32>,
    pub autonomous_system_organization: Option<String>,
}

/// The value binds into [`Asn`]: every present field has the right shape.
pub open spec fn spec_asn_ok(sv: SpecVal) -> bool {
    match sv {
        SpecVal::Dict(es) => {
            &&& spec_opt_u32(es, "autonomous_system_number"@) is Ok
            &&& spec_opt_text(es, "autonomous_system_organization"@) is Ok
        },
        _ => false,
    }
}

/// `c` holds exactly what the value's fields bind to.
pub open spec fn spec_asn_matches(sv: SpecVal, c: Asn) -> bool {
    match sv {
        SpecVal::Dict(es) => {
            &&& spec_opt_u32(es, "autonomous_system_number"@) == Ok::<_, ()>(c.autonomous_system_number)
            &&& spec_opt_text(es, "autonomous_system_organization"@) == Ok::<_, ()>(view_opt_string(c.autonomous_system_organization))
        },
        _ => false,
    }
}

impl Asn {
    /// Binds a decoded record into this shape: present fields must
    /// have the shape the field declares, absent fields stay `None`.
    pub fn from_value(v: &Value) -> (r: Result<Asn, MaxMindDBError>)
        ensures
            r is Ok <==> spec_asn_ok(v@),
            r matches Ok(c) ==> spec_asn_matches(v@, c),
            r matches Err(e) ==> e is DecodingError,
    {
        let entries = match v {
            Value::Dict(es) => es,
            _ => {
                return Err(record_error("record is not a map"));
            },
        };
        let autonomous_system_number = match opt_u32(entries, "autonomous_system_number") {
            Ok(x) => x,
            Err(e) => {
                return Err(e);
            },
        };
        let autonomous_system_organization = match opt_text(entries, "autonomous_system_organization") {
            Ok(x) => x,
            Err(e) => {
                return Err(e);
            },
        };
        Ok(Asn {
            autonomous_system_number,
            autonomous_system_organization,
        })
    }
}

} // verus!
