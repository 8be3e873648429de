//! The metadata record decoded from the tail of a database, and its binding
//! from the decoded value tree.

use vstd::prelude::*;

use crate::error::MaxMindDBError;
use crate::value::{dict_get, spec_dict_get, view_entries, SpecVal, Value};

verus! {

/// The fixed-shape record at the metadata offset: the tree geometry and the
/// descriptive fields of the database.
#[derive(Debug)]
pub struct Metadata {
    pub binary_format_major_version: u16,
    pub binary_format_minor_version: u16,
    pub build_epoch: u64,
    pub database_type: String,
    /// Language tag to description text, in the order the database stores.
    pub description: Vec<(String, String)>,
    pub ip_version: u16,
    pub languages: Vec<String>,
    pub node_count: u32,
    pub record_size: u16,
}

/// The views of a vector of string pairs.
pub open spec fn view_string_pairs(v: Seq<(String, String)>) -> Seq<(Seq<char>, Seq<char>)> {
    Seq::new(v.len(), |i: int| (v[i].0@, v[i].1@))
}

/// The views of a vector of strings.
pub open spec fn view_strings(v: Seq<String>) -> Seq<Seq<char>> {
    Seq::new(v.len(), |i: int| v[i]@)
}

/// The unsigned value a decoded field holds, whatever its width.
pub open spec fn spec_as_u64(v: SpecVal) -> Option<u64> {
    match v {
        SpecVal::Uint16(n) => Some(n as u64),
        SpecVal::Uint32(n) => Some(n as u64),
        SpecVal::Uint64(n) => Some(n),
        _ => None,
    }
}

/// The unsigned field value under `key`, if present and within `u64`.
pub open spec fn spec_field_u64(es: Seq<(Seq<char>, SpecVal)>, key: Seq<char>) -> Option<u64> {
    match spec_dict_get(es, key) {
        Some(v) => spec_as_u64(v),
        None => None,
    }
}

/// The unsigned field value under `key`, if present and within `u32`.
pub open spec fn spec_field_u32(es: Seq<(Seq<char>, SpecVal)>, key: Seq<char>) -> Option<u32> {
    match spec_field_u64(es, key) {
        Some(n) => if n <= 0xffffffff {
            Some(n as u32)
        } else {
            None
        },
        None => None,
    }
}

/// The unsigned field value under `key`, if present and within `u16`.
pub open spec fn spec_field_u16(es: Seq<(Seq<char>, SpecVal)>, key: Seq<char>) -> Option<u16> {
    match spec_field_u64(es, key) {
        Some(n) => if n <= 0xffff {
            Some(n as u16)
        } else {
            None
        },
        None => None,
    }
}

/// The string field value under `key`, if present and a string.
pub open spec fn spec_field_text(es: Seq<(Seq<char>, SpecVal)>, key: Seq<char>) -> Option<
    Seq<char>,
> {
    match spec_dict_get(es, key) {
        Some(SpecVal::Text(t)) => Some(t),
        _ => None,
    }
}

/// The entries of a map whose values are all strings, in order.
pub open spec fn spec_text_map(es: Seq<(Seq<char>, SpecVal)>) -> Option<
    Seq<(Seq<char>, Seq<char>)>,
>
    decreases es.len(),
{
    if es.len() == 0 {
        Some(Seq::empty())
    } else {
        match es[0].1 {
            SpecVal::Text(t) => match spec_text_map(es.drop_first()) {
                Some(rest) => Some(seq![(es[0].0, t)] + rest),
                None => None,
            },
            _ => None,
        }
    }
}

/// The elements of an array whose values are all strings, in order.
pub open spec fn spec_text_array(items: Seq<SpecVal>) -> Option<Seq<Seq<char>>>
    decreases items.len(),
{
    if items.len() == 0 {
        Some(Seq::empty())
    } else {
        match items[0] {
            SpecVal::Text(t) => match spec_text_array(items.drop_first()) {
                Some(rest) => Some(seq![t] + rest),
                None => None,
            },
            _ => None,
        }
    }
}

/// The map field under `key` read as a string-to-string map.
pub open spec fn spec_field_text_map(es: Seq<(Seq<char>, SpecVal)>, key: Seq<char>) -> Option<
    Seq<(Seq<char>, Seq<char>)>,
> {
    match spec_dict_get(es, key) {
        Some(SpecVal::Dict(inner)) => spec_text_map(inner),
        _ => None,
    }
}

/// The array field under `key` read as an array of strings.
pub open spec fn spec_field_text_array(es: Seq<(Seq<char>, SpecVal)>, key: Seq<char>) -> Option<
    Seq<Seq<char>>,
> {
    match spec_dict_get(es, key) {
        Some(SpecVal::Array(items)) => spec_text_array(items),
        _ => None,
    }
}

/// What a metadata value must bind to: every field present with the right
/// shape. The result lists the fields in declaration order.
pub open spec fn spec_metadata_of(sv: SpecVal) -> Option<
    (u16, u16, u64, Seq<char>, Seq<(Seq<char>, Seq<char>)>, u16, Seq<Seq<char>>, u32, u16),
> {
    match sv {
        SpecVal::Dict(es) => {
            if spec_field_u16(es, "binary_format_major_version"@) is Some
                && spec_field_u16(es, "binary_format_minor_version"@) is Some && spec_field_u64(
                es,
                "build_epoch"@,
            ) is Some && spec_field_text(es, "database_type"@) is Some && spec_field_text_map(
                es,
                "description"@,
            ) is Some && spec_field_u16(es, "ip_version"@) is Some && spec_field_text_array(
                es,
                "languages"@,
            ) is Some && spec_field_u32(es, "node_count"@) is Some && spec_field_u16(
                es,
                "record_size"@,
            ) is Some {
                Some(
                    (
                        spec_field_u16(es, "binary_format_major_version"@)->Some_0,
                        spec_field_u16(es, "binary_format_minor_version"@)->Some_0,
                        spec_field_u64(es, "build_epoch"@)->Some_0,
                        spec_field_text(es, "database_type"@)->Some_0,
                        spec_field_text_map(es, "description"@)->Some_0,
                        spec_field_u16(es, "ip_version"@)->Some_0,
                        spec_field_text_array(es, "languages"@)->Some_0,
                        spec_field_u32(es, "node_count"@)->Some_0,
                        spec_field_u16(es, "record_size"@)->Some_0,
                    ),
                )
            } else {
                None
            }
        },
        _ => None,
    }
}

/// The view of a bound metadata record, fields in declaration order.
pub open spec fn spec_metadata_view(m: Metadata) -> (
    u16,
    u16,
    u64,
    Seq<char>,
    Seq<(Seq<char>, Seq<char>)>,
    u16,
    Seq<Seq<char>>,
    u32,
    u16,
) {
    (
        m.binary_format_major_version,
        m.binary_format_minor_version,
        m.build_epoch,
        m.database_type@,
        view_string_pairs(m.description@),
        m.ip_version,
        view_strings(m.languages@),
        m.node_count,
        m.record_size,
    )
}

/// The unsigned value a decoded field holds, whatever its width.
pub(crate) fn value_as_u64(v: &Value) -> (r: Option<u64>)
    ensures
        r == spec_as_u64(v@),
{
    match v {
        Value::Uint16(n) => Some(*n as u64),
        Value::Uint32(n) => Some(*n as u64),
        Value::Uint64(n) => Some(*n),
        _ => None,
    }
}

/// The unsigned field under `key`, if present and within `u64`.
fn get_u64(entries: &Vec<(String, Value)>, key: &str) -> (r: Option<u64>)
    ensures
        r == spec_field_u64(view_entries(entries@), key@),
{
    match dict_get(entries, key) {
        Some(v) => value_as_u64(v),
        None => None,
    }
}

/// The unsigned field under `key`, if present and within `u32`.
fn get_u32(entries: &Vec<(String, Value)>, key: &str) -> (r: Option<u32>)
    ensures
        r == spec_field_u32(view_entries(entries@), key@),
{
    match get_u64(entries, key) {
        Some(n) => if n <= 0xffffffff {
            Some(n as u32)
        } else {
            None
        },
        None => None,
    }
}

/// The unsigned field under `key`, if present and within `u16`.
fn get_u16(entries: &Vec<(String, Value)>, key: &str) -> (r: Option<u16>)
    ensures
        r == spec_field_u16(view_entries(entries@), key@),
{
    match get_u64(entries, key) {
        Some(n) => if n <= 0xffff {
            Some(n as u16)
        } else {
            None
        },
        None => None,
    }
}

/// The string field under `key`, cloned out of the tree.
fn get_string(entries: &Vec<(String, Value)>, key: &str) -> (r: Option<String>)
    ensures
        match r {
            Some(s) => spec_field_text(view_entries(entries@), key@) == Some(s@),
            None => spec_field_text(view_entries(entries@), key@) is None,
        },
{
    match dict_get(entries, key) {
        Some(v) => match v {
            Value::Text(s) => Some(s.clone()),
            _ => None,
        },
        None => None,
    }
}

/// Reads a map of strings into owned pairs.
pub(crate) fn text_map_entries(entries: &Vec<(String, Value)>) -> (r: Option<Vec<(String, String)>>)
    ensures
        match r {
            Some(out) => spec_text_map(view_entries(entries@)) == Some(view_string_pairs(out@)),
            None => spec_text_map(view_entries(entries@)) is None,
        },
{
    let ghost full = view_entries(entries@);
    proof {
        crate::value::lemma_view_entries_index(entries@);
        assert(full.skip(0) =~= full);
    }
    let mut out: Vec<(String, String)> = Vec::new();
    let n = entries.len();
    let mut i: usize = 0;
    while i < n
        invariant
            n == entries.len(),
            0 <= i <= n,
            full == view_entries(entries@),
            full.len() == n,
            forall|j: int| 0 <= j < n ==> full[j] == (entries@[j].0@, entries@[j].1@),
            out@.len() == i,
            spec_text_map(full) == (match spec_text_map(full.skip(i as int)) {
                Some(rest) => Some(view_string_pairs(out@) + rest),
                None => None::<Seq<(Seq<char>, Seq<char>)>>,
            }),
        decreases n - i,
    {
        proof {
            assert(full.skip(i as int)[0] == full[i as int]);
            assert(full.skip(i as int).drop_first() =~= full.skip(i + 1));
        }
        let text = match &entries[i].1 {
            Value::Text(s) => s.clone(),
            _ => {
                return None;
            },
        };
        let ghost before = out@;
        out.push((entries[i].0.clone(), text));
        proof {
            assert(forall|rest: Seq<(Seq<char>, Seq<char>)>|
                view_string_pairs(out@) + rest =~= view_string_pairs(before) + (seq![
                    (full[i as int].0, full[i as int].1->Text_0),
                ] + rest));
        }
        i = i + 1;
    }
    proof {
        assert(full.skip(n as int).len() == 0);
        assert(view_string_pairs(out@) + Seq::<(Seq<char>, Seq<char>)>::empty()
            =~= view_string_pairs(out@));
    }
    Some(out)
}

/// Reads an array of strings into owned strings.
fn text_array_items(items: &Vec<Value>) -> (r: Option<Vec<String>>)
    ensures
        match r {
            Some(out) => spec_text_array(crate::value::view_items(items@)) == Some(
                view_strings(out@),
            ),
            None => spec_text_array(crate::value::view_items(items@)) is None,
        },
{
    let ghost full = crate::value::view_items(items@);
    proof {
        crate::value::lemma_view_items_index(items@);
        assert(full.skip(0) =~= full);
    }
    let mut out: Vec<String> = Vec::new();
    let n = items.len();
    let mut i: usize = 0;
    while i < n
        invariant
            n == items.len(),
            0 <= i <= n,
            full == crate::value::view_items(items@),
            full.len() == n,
            forall|j: int| 0 <= j < n ==> full[j] == items@[j]@,
            out@.len() == i,
            spec_text_array(full) == (match spec_text_array(full.skip(i as int)) {
                Some(rest) => Some(view_strings(out@) + rest),
                None => None::<Seq<Seq<char>>>,
            }),
        decreases n - i,
    {
        proof {
            assert(full.skip(i as int)[0] == full[i as int]);
            assert(full.skip(i as int).drop_first() =~= full.skip(i + 1));
        }
        let text = match &items[i] {
            Value::Text(s) => s.clone(),
            _ => {
                return None;
            },
        };
        let ghost before = out@;
        out.push(text);
        proof {
            assert(forall|rest: Seq<Seq<char>>|
                view_strings(out@) + rest =~= view_strings(before) + (seq![
                    full[i as int]->Text_0,
                ] + rest));
        }
        i = i + 1;
    }
    proof {
        assert(full.skip(n as int).len() == 0);
        assert(view_strings(out@) + Seq::<Seq<char>>::empty() =~= view_strings(out@));
    }
    Some(out)
}

/// Binds a decoded value into the metadata record: exactly the maps that
/// hold every field with the right shape bind, anything else is a decoding
/// error.
pub fn metadata_from_value(v: &Value) -> (r: Result<Metadata, MaxMindDBError>)
    ensures
        match r {
            Ok(m) => spec_metadata_of(v@) == Some(spec_metadata_view(m)),
            Err(e) => {
                &&& spec_metadata_of(v@) is None
                &&& e is DecodingError
                &&& e.spec_message() == "Couldn't decode Metadata"@
            },
        },
{
    let entries = match v {
        Value::Dict(entries) => entries,
        _ => {
            return Err(decoding_error());
        },
    };
    let major = match get_u16(entries, "binary_format_major_version") {
        Some(x) => x,
        None => {
            return Err(decoding_error());
        },
    };
    let minor = match get_u16(entries, "binary_format_minor_version") {
        Some(x) => x,
        None => {
            return Err(decoding_error());
        },
    };
    let build_epoch = match get_u64(entries, "build_epoch") {
        Some(x) => x,
        None => {
            return Err(decoding_error());
        },
    };
    let database_type = match get_string(entries, "database_type") {
        Some(x) => x,
        None => {
            return Err(decoding_error());
        },
    };
    let description = match dict_get(entries, "description") {
        Some(dv) => match dv {
            Value::Dict(inner) => match text_map_entries(inner) {
                Some(x) => x,
                None => {
                    return Err(decoding_error());
                },
            },
            _ => {
                return Err(decoding_error());
            },
        },
        None => {
            return Err(decoding_error());
        },
    };
    let ip_version = match get_u16(entries, "ip_version") {
        Some(x) => x,
        None => {
            return Err(decoding_error());
        },
    };
    let languages = match dict_get(entries, "languages") {
        Some(lv) => match lv {
            Value::Array(inner) => match text_array_items(inner) {
                Some(x) => x,
                None => {
                    return Err(decoding_error());
                },
            },
            _ => {
                return Err(decoding_error());
            },
        },
        None => {
            return Err(decoding_error());
        },
    };
    let node_count = match get_u32(entries, "node_count") {
        Some(x) => x,
        None => {
            return Err(decoding_error());
        },
    };
    let record_size = match get_u16(entries, "record_size") {
        Some(x) => x,
        None => {
            return Err(decoding_error());
        },
    };
    Ok(
        Metadata {
            binary_format_major_version: major,
            binary_format_minor_version: minor,
            build_epoch,
            database_type,
            description,
            ip_version,
            languages,
            node_count,
            record_size,
        },
    )
}

/// The error the metadata binder reports.
fn decoding_error() -> (e: MaxMindDBError)
    ensures
        e is DecodingError,
        e.spec_message() == "Couldn't decode Metadata"@,
{
    MaxMindDBError::DecodingError("Couldn't decode Metadata".to_owned())
}

} // verus!
