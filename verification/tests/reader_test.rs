//! End-to-end tests on hand-built database images.

use maxminddb::geoip2;
use maxminddb::locator::{find_metadata_start, find_metadata_start_chunked};
use maxminddb::{MaxMindDBError, Reader, Value};

fn ctrl(t: u8, size: usize) -> Vec<u8> {
    let mut out: Vec<u8> = Vec::new();
    if size < 29 {
        out.push((t << 5) | size as u8);
    } else if size <= 284 {
        out.push((t << 5) | 29);
        out.push((size - 29) as u8);
    } else if size <= 65820 {
        out.push((t << 5) | 30);
        let m = size - 285;
        out.push((m >> 8) as u8);
        out.push((m & 0xff) as u8);
    } else {
        out.push((t << 5) | 31);
        let m = size - 65821;
        out.push((m >> 16) as u8);
        out.push(((m >> 8) & 0xff) as u8);
        out.push((m & 0xff) as u8);
    }
    out
}

fn ext_ctrl(real: u8, size: usize) -> Vec<u8> {
    let mut out = ctrl(0, size);
    out.insert(1, real - 7);
    out
}

fn enc_str(s: &str) -> Vec<u8> {
    let mut out = ctrl(2, s.len());
    out.extend_from_slice(s.as_bytes());
    out
}

fn be_min(n: u128) -> Vec<u8> {
    let mut out: Vec<u8> = Vec::new();
    let mut m = n;
    while m > 0 {
        out.insert(0, (m & 0xff) as u8);
        m >>= 8;
    }
    out
}

fn enc_u16(n: u16) -> Vec<u8> {
    let b = be_min(n as u128);
    let mut out = ctrl(5, b.len());
    out.extend(b);
    out
}

fn enc_u32(n: u32) -> Vec<u8> {
    let b = be_min(n as u128);
    let mut out = ctrl(6, b.len());
    out.extend(b);
    out
}

fn enc_u64(n: u64) -> Vec<u8> {
    let b = be_min(n as u128);
    let mut out = ext_ctrl(9, b.len());
    out.extend(b);
    out
}

fn enc_u128(n: u128) -> Vec<u8> {
    let b = be_min(n);
    let mut out = ext_ctrl(10, b.len());
    out.extend(b);
    out
}

fn enc_i32(n: i32) -> Vec<u8> {
    let mut out = ext_ctrl(8, 4);
    out.extend_from_slice(&n.to_be_bytes());
    out
}

fn enc_bool(b: bool) -> Vec<u8> {
    ext_ctrl(14, if b { 1 } else { 0 })
}

fn enc_double(x: f64) -> Vec<u8> {
    let mut out = ctrl(3, 8);
    out.extend_from_slice(&x.to_bits().to_be_bytes());
    out
}

fn enc_float(x: f32) -> Vec<u8> {
    let mut out = ext_ctrl(15, 4);
    out.extend_from_slice(&x.to_bits().to_be_bytes());
    out
}

fn enc_array(items: Vec<Vec<u8>>) -> Vec<u8> {
    let mut out = ext_ctrl(11, items.len());
    for it in items {
        out.extend(it);
    }
    out
}

fn enc_map(entries: Vec<(&str, Vec<u8>)>) -> Vec<u8> {
    let mut out = ctrl(7, entries.len());
    for (k, v) in entries {
        out.extend(enc_str(k));
        out.extend(v);
    }
    out
}

fn marker() -> Vec<u8> {
    let mut out = vec![0xabu8, 0xcd, 0xef];
    out.extend_from_slice(b"MaxMind.com");
    out
}

/// One tree node, packed by record size.
fn node(record_size: u16, left: u32, right: u32) -> Vec<u8> {
    match record_size {
        24 => {
            let mut out = be3(left);
            out.extend(be3(right));
            out
        }
        28 => {
            let mut out = be3(left & 0xffffff);
            out.push((((left >> 24) as u8) << 4) | ((right >> 24) as u8 & 0x0f));
            out.extend(be3(right & 0xffffff));
            out
        }
        32 => {
            let mut out = left.to_be_bytes().to_vec();
            out.extend_from_slice(&right.to_be_bytes());
            out
        }
        _ => panic!("record size"),
    }
}

fn be3(n: u32) -> Vec<u8> {
    vec![(n >> 16) as u8, ((n >> 8) & 0xff) as u8, (n & 0xff) as u8]
}

fn metadata_map(ip_version: u16, node_count: u32, record_size: u16) -> Vec<u8> {
    enc_map(vec![
        ("binary_format_major_version", enc_u16(2)),
        ("binary_format_minor_version", enc_u16(0)),
        ("build_epoch", enc_u64(1620000000)),
        ("database_type", enc_str("Test")),
        (
            "description",
            enc_map(vec![
                ("en", enc_str("Test Database")),
                ("zh", enc_str("Test Database Chinese")),
            ]),
        ),
        ("ip_version", enc_u16(ip_version)),
        (
            "languages",
            enc_array(vec![enc_str("en"), enc_str("zh")]),
        ),
        ("node_count", enc_u32(node_count)),
        ("record_size", enc_u16(record_size)),
    ])
}

/// Assembles a database image: tree, separator, data section, marker and
/// metadata.
fn build_db(
    record_size: u16,
    ip_version: u16,
    nodes: Vec<(u32, u32)>,
    data: Vec<u8>,
) -> Vec<u8> {
    let node_count = nodes.len() as u32;
    let mut out: Vec<u8> = Vec::new();
    for (l, r) in nodes {
        out.extend(node(record_size, l, r));
    }
    out.extend_from_slice(&[0u8; 16]);
    out.extend(data);
    out.extend(marker());
    out.extend(metadata_map(ip_version, node_count, record_size));
    out
}

/// A one-node database whose record is reached on the given first bit.
fn simple_db(record_size: u16, ip_version: u16, record: Vec<u8>) -> Vec<u8> {
    // Data pointer value: node_count + 16 + offset 0.
    let ptr = 1 + 16;
    let (left, right) = if ip_version == 4 { (ptr, 1) } else { (1, ptr) };
    build_db(record_size, ip_version, vec![(left, right)], record)
}

fn field<'a>(v: &'a Value, key: &str) -> &'a Value {
    match v {
        Value::Dict(entries) => {
            for (k, val) in entries.iter() {
                if k == key {
                    return val;
                }
            }
            panic!("missing field {}", key);
        }
        other => panic!("not a map: {:?}", other),
    }
}

fn as_u32s(v: &Value) -> Vec<u32> {
    match v {
        Value::Array(items) => items
            .iter()
            .map(|x| match x {
                Value::Uint32(n) => *n,
                other => panic!("not u32: {:?}", other),
            })
            .collect(),
        other => panic!("not an array: {:?}", other),
    }
}

/// The record holding every value shape, reached at 1.1.1.0.
fn decoder_record() -> Vec<u8> {
    enc_map(vec![
        ("array", enc_array(vec![enc_u32(1), enc_u32(2), enc_u32(3)])),
        ("boolean", enc_bool(true)),
        ("bytes", {
            let mut b = ctrl(4, 4);
            b.extend_from_slice(&[0, 0, 0, 42]);
            b
        }),
        ("double", enc_double(42.123456)),
        ("float", enc_float(1.1)),
        ("int32", enc_i32(-268435456)),
        (
            "map",
            enc_map(vec![(
                "mapX",
                enc_map(vec![
                    (
                        "arrayX",
                        enc_array(vec![enc_u32(7), enc_u32(8), enc_u32(9)]),
                    ),
                    ("utf8_stringX", enc_str("hello")),
                ]),
            )]),
        ),
        ("uint16", enc_u16(100)),
        ("uint32", enc_u32(268435456)),
        ("uint64", enc_u64(1152921504606846976)),
        ("uint128", enc_u128(1329227995784915872903807060280344576)),
        ("utf8_string", enc_str("unicode! \u{262f} - \u{266b}")),
    ])
}

#[test]
fn test_decoder() {
    let db = simple_db(24, 4, decoder_record());
    let reader = Reader::from_source(db).unwrap();
    let result = reader.lookup(&vec![1, 1, 1, 0]).unwrap();

    assert_eq!(as_u32s(field(&result, "array")), vec![1, 2, 3]);
    assert!(matches!(field(&result, "boolean"), Value::Bool(true)));
    match field(&result, "bytes") {
        Value::Bytes(b) => assert_eq!(b, &vec![0u8, 0, 0, 42]),
        other => panic!("bytes: {:?}", other),
    }
    match field(&result, "double") {
        Value::DoubleBits(bits) => assert_eq!(f64::from_bits(*bits), 42.123456),
        other => panic!("double: {:?}", other),
    }
    match field(&result, "float") {
        Value::FloatBits(bits) => assert_eq!(f32::from_bits(*bits), 1.1),
        other => panic!("float: {:?}", other),
    }
    assert!(matches!(field(&result, "int32"), Value::Int32(-268435456)));

    let map_x = field(field(&result, "map"), "mapX");
    assert_eq!(as_u32s(field(map_x, "arrayX")), vec![7, 8, 9]);
    match field(map_x, "utf8_stringX") {
        Value::Text(s) => assert_eq!(s, "hello"),
        other => panic!("utf8_stringX: {:?}", other),
    }

    assert!(matches!(field(&result, "uint16"), Value::Uint16(100)));
    assert!(matches!(field(&result, "uint32"), Value::Uint32(268435456)));
    assert!(matches!(
        field(&result, "uint64"),
        Value::Uint64(1152921504606846976)
    ));
    assert!(matches!(
        field(&result, "uint128"),
        Value::Uint128(1329227995784915872903807060280344576)
    ));
    match field(&result, "utf8_string") {
        Value::Text(s) => assert_eq!(s, "unicode! \u{262f} - \u{266b}"),
        other => panic!("utf8_string: {:?}", other),
    }
}

/// Metadata of every (record size, IP version) pair binds and validates.
#[test]
fn test_reader() {
    let sizes = [24u16, 28, 32];
    for &record_size in sizes.iter() {
        let versions = [4u16, 6];
        for &ip_version in versions.iter() {
            let db = simple_db(record_size, ip_version, enc_map(vec![("ip", enc_str("x"))]));
            let reader = Reader::from_source(db).unwrap();
            let metadata = &reader.metadata;

            assert_eq!(metadata.binary_format_major_version, 2);
            assert_eq!(metadata.binary_format_minor_version, 0);
            assert!(metadata.build_epoch >= 1397457605);
            assert_eq!(metadata.database_type, "Test".to_string());
            assert_eq!(metadata.description.len(), 2);
            assert_eq!(metadata.description[0].0, "en");
            assert_eq!(metadata.description[0].1, "Test Database");
            assert_eq!(metadata.description[1].0, "zh");
            assert_eq!(metadata.description[1].1, "Test Database Chinese");
            assert_eq!(metadata.ip_version, ip_version);
            assert_eq!(metadata.languages, vec!["en".to_string(), "zh".to_string()]);
            assert_eq!(metadata.node_count, 1);
            assert_eq!(metadata.record_size, record_size);

            // One lookup per image: the record hangs off the first bit.
            let address = if ip_version == 4 {
                vec![1u8, 1, 1, 0]
            } else {
                let mut a = vec![0x80u8];
                a.extend(std::iter::repeat(0u8).take(15));
                a
            };
            let (record, prefix_len) = reader.lookup_prefix(&address).unwrap();
            assert_eq!(prefix_len, 1);
            match field(&record, "ip") {
                Value::Text(s) => assert_eq!(s, "x"),
                other => panic!("ip: {:?}", other),
            }
        }
    }
}

/// A walk that reaches a null record reports the address as not found.
#[test]
fn test_address_not_found() {
    let db = simple_db(24, 4, enc_map(vec![("ip", enc_str("x"))]));
    let reader = Reader::from_source(db).unwrap();
    match reader.lookup(&vec![255, 254, 253, 123]) {
        Err(e) => assert_eq!(
            e,
            MaxMindDBError::AddressNotFoundError("Address not found in database".to_owned())
        ),
        Ok(v) => panic!("received an unexpected value: {:?}", v),
    }
}

/// A 16-byte query against an IPv4 database is an invalid network.
#[test]
fn test_ipv6_query_against_ipv4_database() {
    let db = simple_db(24, 4, enc_map(vec![("ip", enc_str("x"))]));
    let reader = Reader::from_source(db).unwrap();
    match reader.lookup(&vec![0u8; 16]) {
        Err(MaxMindDBError::InvalidNetworkError(_)) => {}
        other => panic!("expected InvalidNetworkError, got {:?}", other),
    }
}

/// The prefix length counts the bits consumed before the walk stopped.
#[test]
fn test_lookup_prefix() {
    // Two nodes: bit 0 descends, bit 0 again reaches the record.
    let ptr = 2 + 16;
    let db = build_db(
        24,
        4,
        vec![(1, 2), (ptr, 2)],
        enc_map(vec![("ip", enc_str("0.0.0.0/2"))]),
    );
    let reader = Reader::from_source(db).unwrap();

    let (_, prefix_len) = reader.lookup_prefix(&vec![1, 1, 1, 0]).unwrap();
    assert_eq!(prefix_len, 2);

    // The last host of the same network matches the same prefix.
    let (_, last_prefix_len) = reader.lookup_prefix(&vec![63, 255, 255, 255]).unwrap();
    assert_eq!(prefix_len, last_prefix_len);

    // The other half of the tree holds no record.
    match reader.lookup_prefix(&vec![128, 0, 0, 1]) {
        Err(MaxMindDBError::AddressNotFoundError(_)) => {}
        other => panic!("expected AddressNotFoundError, got {:?}", other),
    }
}

/// A database whose only network is the first `prefix_len` bits of
/// `address`: one node per bit, the record at the end of the chain.
fn chain_db(
    record_size: u16,
    ip_version: u16,
    address: &[u8],
    prefix_len: usize,
    record: Vec<u8>,
) -> Vec<u8> {
    let n = prefix_len as u32;
    let ptr = n + 16;
    let mut nodes: Vec<(u32, u32)> = Vec::new();
    for i in 0..prefix_len {
        let bit = (address[i / 8] >> (7 - (i % 8))) & 1;
        let next = if i + 1 == prefix_len { ptr } else { (i + 1) as u32 };
        if bit == 0 {
            nodes.push((next, n));
        } else {
            nodes.push((n, next));
        }
    }
    build_db(record_size, ip_version, nodes, record)
}

/// The matched prefix length equals the CIDR length of the stored network,
/// for IPv4 and IPv6 alike.
#[test]
fn test_lookup_prefix_depths() {
    // An IPv4 network of 25 bits.
    let addr = [89u8, 160, 20, 128];
    let db = chain_db(
        24,
        4,
        &addr,
        25,
        enc_map(vec![("ip", enc_str("89.160.20.128/25"))]),
    );
    let reader = Reader::from_source(db).unwrap();

    let (_, prefix_len) = reader.lookup_prefix(&vec![89, 160, 20, 128]).unwrap();
    assert_eq!(prefix_len, 25);

    // The last host of the network matches the same prefix.
    let (_, last_prefix_len) = reader.lookup_prefix(&vec![89, 160, 20, 254]).unwrap();
    assert_eq!(prefix_len, last_prefix_len);

    // An address outside the network finds nothing.
    match reader.lookup_prefix(&vec![89, 160, 20, 0]) {
        Err(MaxMindDBError::AddressNotFoundError(_)) => {}
        other => panic!("expected AddressNotFoundError, got {:?}", other),
    }

    // An IPv6 network of 26 bits.
    let mut addr6 = vec![0x2cu8, 0x0f, 0xff, 0x00];
    addr6.extend(std::iter::repeat(0u8).take(12));
    let db6 = chain_db(
        28,
        6,
        &addr6,
        26,
        enc_map(vec![("ip", enc_str("2c0f:ff00::/26"))]),
    );
    let reader6 = Reader::from_source(db6).unwrap();
    let mut query = vec![0x2cu8, 0x0f, 0xff, 0x00];
    query.extend(std::iter::repeat(0u8).take(11));
    query.push(1);
    let (_, prefix6) = reader6.lookup_prefix(&query).unwrap();
    assert_eq!(prefix6, 26);
}

/// A double whose size field is wrong surfaces the offending size.
#[test]
fn test_broken_database() {
    let mut broken = ctrl(3, 2);
    broken.extend_from_slice(&[0x40, 0x45]);
    let db = simple_db(24, 6, enc_map(vec![("double", broken)]));
    let reader = Reader::from_source(db).unwrap();
    let mut address = vec![0x80u8];
    address.extend(std::iter::repeat(0u8).take(15));
    match reader.lookup(&address) {
        Err(e) => assert_eq!(
            e,
            MaxMindDBError::InvalidDatabaseError("double of size 2".to_string())
        ),
        Ok(_) => panic!("Error expected"),
    }
}

/// Bytes without the metadata marker are not a database.
#[test]
fn test_non_database() {
    let data = b"this is not a MaxMind DB file, only prose".to_vec();
    match Reader::from_source(data) {
        Ok(_) => panic!("Received Reader when opening a non-MMDB file"),
        Err(e) => assert_eq!(
            e,
            MaxMindDBError::InvalidDatabaseError(
                "Could not find MaxMind DB metadata in file.".to_string(),
            )
        ),
    }
}

/// The locator returns the offset just past the *last* marker, whatever
/// the chunk size, even when marker bytes also occur inside the data
/// section.
#[test]
fn test_metadata_locator_chunk_sizes() {
    // Plant a decoy marker inside the data section as a bytes value.
    let mut decoy = ctrl(4, 14);
    decoy.extend(marker());
    let mut record = enc_map(vec![("noise", decoy), ("ip", enc_str("x"))]);
    // Pad the record so chunk boundaries fall in many places.
    record.extend(ctrl(4, 100));
    record.extend(std::iter::repeat(7u8).take(100));
    let db = simple_db(24, 4, record);

    let expected = find_metadata_start(&db).unwrap();
    let chunks = [14usize, 15, 16, 17, 29, 31, 100, 1024, 1 << 20];
    for &c in chunks.iter() {
        assert_eq!(
            find_metadata_start_chunked(&db, c).unwrap(),
            expected,
            "chunk size {}",
            c
        );
    }
    // The returned offset really points past a marker occurrence.
    assert_eq!(&db[expected - 14..expected], marker().as_slice());
    // And no later occurrence exists.
    let tail = &db[expected..];
    assert!(!tail
        .windows(14)
        .any(|w| w == marker().as_slice()));
}

/// Metadata fields may be pointer-encoded, relative to the start of the
/// metadata region.
#[test]
fn test_pointers_in_metadata() {
    // Build the metadata map by hand, pointing database_type at the bytes
    // of the description text.
    let mut md = ctrl(7, 9);
    md.extend(enc_str("binary_format_major_version"));
    md.extend(enc_u16(2));
    md.extend(enc_str("binary_format_minor_version"));
    md.extend(enc_u16(0));
    md.extend(enc_str("build_epoch"));
    md.extend(enc_u64(1620000000));
    md.extend(enc_str("description"));
    md.extend(ctrl(7, 1));
    md.extend(enc_str("en"));
    let target = md.len(); // offset of the description text value
    md.extend(enc_str("Test Database"));
    md.extend(enc_str("database_type"));
    assert!(target < 2048);
    md.push((1 << 5) | ((target >> 8) as u8));
    md.push((target & 0xff) as u8);
    md.extend(enc_str("ip_version"));
    md.extend(enc_u16(4));
    md.extend(enc_str("languages"));
    md.extend(enc_array(vec![enc_str("en")]));
    md.extend(enc_str("node_count"));
    md.extend(enc_u32(1));
    md.extend(enc_str("record_size"));
    md.extend(enc_u16(24));

    let mut db: Vec<u8> = Vec::new();
    db.extend(node(24, 17, 1));
    db.extend_from_slice(&[0u8; 16]);
    db.extend(enc_map(vec![("ip", enc_str("x"))]));
    db.extend(marker());
    db.extend(md);

    let reader = Reader::from_source(db).unwrap();
    assert_eq!(reader.metadata.database_type, "Test Database");
}

/// A record binds into the City shape.
#[test]
fn test_lookup_city() {
    let record = enc_map(vec![
        (
            "city",
            enc_map(vec![
                ("geoname_id", enc_u32(2694762)),
                ("names", enc_map(vec![("en", enc_str("Linköping"))])),
            ]),
        ),
        (
            "country",
            enc_map(vec![
                ("geoname_id", enc_u32(2661886)),
                ("is_in_european_union", enc_bool(true)),
                ("iso_code", enc_str("SE")),
                ("names", enc_map(vec![("en", enc_str("Sweden"))])),
            ]),
        ),
        (
            "location",
            enc_map(vec![
                ("latitude", enc_double(58.4167)),
                ("longitude", enc_double(15.6167)),
                ("accuracy_radius", enc_u16(76)),
                ("time_zone", enc_str("Europe/Stockholm")),
            ]),
        ),
        (
            "subdivisions",
            enc_array(vec![enc_map(vec![("iso_code", enc_str("E"))])]),
        ),
    ]);
    let db = simple_db(24, 4, record);
    let reader = Reader::from_source(db).unwrap();
    let value = reader.lookup(&vec![89, 160, 20, 112]).unwrap();
    let city = geoip2::City::from_value(&value).unwrap();

    let iso_code = city.country.and_then(|cy| cy.iso_code);
    assert_eq!(iso_code, Some("SE".to_owned()));
    let location = city.location.unwrap();
    assert_eq!(location.latitude.map(f64::from_bits), Some(58.4167));
    assert_eq!(location.time_zone, Some("Europe/Stockholm".to_owned()));
    let subdivisions = city.subdivisions.unwrap();
    assert_eq!(subdivisions.len(), 1);
    assert_eq!(subdivisions[0].iso_code, Some("E".to_owned()));
    assert_eq!(
        city.city.unwrap().names.unwrap()[0],
        ("en".to_owned(), "Linköping".to_owned())
    );
}

/// A record binds into the Country shape.
#[test]
fn test_lookup_country() {
    let record = enc_map(vec![(
        "country",
        enc_map(vec![
            ("is_in_european_union", enc_bool(true)),
            ("iso_code", enc_str("SE")),
        ]),
    )]);
    let db = simple_db(24, 4, record);
    let reader = Reader::from_source(db).unwrap();
    let value = reader.lookup(&vec![89, 160, 20, 112]).unwrap();
    let country = geoip2::Country::from_value(&value).unwrap().country.unwrap();

    assert_eq!(country.iso_code, Some("SE".to_owned()));
    assert_eq!(country.is_in_european_union, Some(true));
}

/// A record binds into the Isp and Asn shapes.
#[test]
fn test_lookup_isp() {
    let record = enc_map(vec![
        ("autonomous_system_number", enc_u32(7018)),
        (
            "autonomous_system_organization",
            enc_str("AT&T Worldnet Services"),
        ),
        ("isp", enc_str("AT&T Services")),
        ("organization", enc_str("AT&T Worldnet Services")),
    ]);
    let db = simple_db(24, 4, record);
    let reader = Reader::from_source(db).unwrap();
    let value = reader.lookup(&vec![12, 87, 118, 123]).unwrap();

    let isp = geoip2::Isp::from_value(&value).unwrap();
    assert_eq!(isp.autonomous_system_number, Some(7018));
    assert_eq!(isp.isp, Some("AT&T Services".to_owned()));
    assert_eq!(isp.organization, Some("AT&T Worldnet Services".to_owned()));

    let asn = geoip2::Asn::from_value(&value).unwrap();
    assert_eq!(asn.autonomous_system_number, Some(7018));
    assert_eq!(
        asn.autonomous_system_organization,
        Some("AT&T Worldnet Services".to_owned())
    );
}

/// A record binds into the remaining flat shapes.
#[test]
fn test_lookup_flat_records() {
    let record = enc_map(vec![
        ("connection_type", enc_str("Cable/DSL")),
        ("domain", enc_str("speakeasy.net")),
        ("average_income", enc_u32(32323)),
        ("population_density", enc_u32(1232)),
        ("is_anonymous", enc_bool(true)),
        ("is_anonymous_vpn", enc_bool(true)),
        ("is_hosting_provider", enc_bool(true)),
        ("is_public_proxy", enc_bool(true)),
        ("is_tor_exit_node", enc_bool(true)),
    ]);
    let db = simple_db(24, 4, record);
    let reader = Reader::from_source(db).unwrap();
    let value = reader.lookup(&vec![96, 1, 20, 112]).unwrap();

    let connection_type = geoip2::ConnectionType::from_value(&value).unwrap();
    assert_eq!(connection_type.connection_type, Some("Cable/DSL".to_owned()));

    let domain = geoip2::Domain::from_value(&value).unwrap();
    assert_eq!(domain.domain, Some("speakeasy.net".to_owned()));

    let density_income = geoip2::DensityIncome::from_value(&value).unwrap();
    assert_eq!(density_income.average_income, Some(32323));
    assert_eq!(density_income.population_density, Some(1232));

    let anonymous_ip = geoip2::AnonymousIp::from_value(&value).unwrap();
    assert_eq!(anonymous_ip.is_anonymous, Some(true));
    assert_eq!(anonymous_ip.is_public_proxy, Some(true));
    assert_eq!(anonymous_ip.is_anonymous_vpn, Some(true));
    assert_eq!(anonymous_ip.is_hosting_provider, Some(true));
    assert_eq!(anonymous_ip.is_tor_exit_node, Some(true));
}

/// A field of the wrong shape is a decoding error, not a panic.
#[test]
fn test_binding_shape_mismatch() {
    let record = enc_map(vec![("domain", enc_u32(5))]);
    let db = simple_db(24, 4, record);
    let reader = Reader::from_source(db).unwrap();
    let value = reader.lookup(&vec![1, 1, 1, 0]).unwrap();
    match geoip2::Domain::from_value(&value) {
        Err(MaxMindDBError::DecodingError(_)) => {}
        other => panic!("expected DecodingError, got {:?}", other),
    }
}

/// Lookups on the same reader are deterministic.
#[test]
fn test_lookup_deterministic() {
    let db = simple_db(24, 4, decoder_record());
    let reader = Reader::from_source(db).unwrap();
    let (a, pa) = reader.lookup_prefix(&vec![1, 1, 1, 0]).unwrap();
    let (b, pb) = reader.lookup_prefix(&vec![1, 1, 1, 0]).unwrap();
    assert_eq!(pa, pb);
    assert_eq!(format!("{:?}", a), format!("{:?}", b));
}
