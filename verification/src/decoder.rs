//! The data-section decoder: a self-describing, pointer-compressed,
//! length-prefixed serialization of maps, arrays, strings, integers of
//! several widths, IEEE 754 payloads, booleans and bytes.
//!
//! Every value begins with a control byte; its high three bits select the
//! type (0 marks an extended type named by the following byte), its low five
//! bits begin the size. Pointers address the data section relative to
//! `base`, and may chain; recursion over pointers and containers is bounded
//! by a depth budget, so a pointer cycle is reported instead of followed
//! forever.

use vstd::prelude::*;
use vstd::utf8::{
    decode_utf8, encode_utf8, encode_utf8_decode_utf8, valid_utf8,
};

use crate::error::{spec_decimal, u64_to_string, MaxMindDBError};
use crate::value::{view_entries, view_items, SpecVal, Value};

verus! {

/// How many nested decoding steps (pointer hops and container levels) a
/// single decode may take before it is declared cyclic.
pub const DECODE_DEPTH_LIMIT: u32 = 512;

/// 256 to the power `n` (1 for `n <= 0`).
pub open spec fn pow256(n: int) -> nat
    decreases n,
{
    if n <= 0 {
        1
    } else {
        256 * pow256(n - 1)
    }
}

/// The big-endian unsigned value of a byte string.
pub open spec fn spec_be(s: Seq<u8>) -> nat
    decreases s.len(),
{
    if s.len() == 0 {
        0
    } else {
        (spec_be(s.drop_last()) * 256 + s.last()) as nat
    }
}

/// A big-endian value of `n` bytes is below `256^n`.
pub proof fn lemma_spec_be_bound(s: Seq<u8>)
    ensures
        spec_be(s) < pow256(s.len() as int),
    decreases s.len(),
{
    if s.len() > 0 {
        lemma_spec_be_bound(s.drop_last());
    }
}

/// The size field that follows a control byte with low bits `low`, starting
/// at offset `p`: the size itself and the offset just past it.
pub open spec fn spec_parse_size(data: Seq<u8>, p: int, low: int) -> Result<(int, int), Seq<char>> {
    if low < 29 {
        Ok((low, p))
    } else if low == 29 {
        if p + 1 <= data.len() {
            Ok((29 + data[p] as int, p + 1))
        } else {
            Err("unexpected EOF in data section"@)
        }
    } else if low == 30 {
        if p + 2 <= data.len() {
            Ok((285 + spec_be(data.subrange(p, p + 2)) as int, p + 2))
        } else {
            Err("unexpected EOF in data section"@)
        }
    } else {
        if p + 3 <= data.len() {
            Ok((65821 + spec_be(data.subrange(p, p + 3)) as int, p + 3))
        } else {
            Err("unexpected EOF in data section"@)
        }
    }
}

/// The pointer encoded by control byte `c` with its extra bytes at `p`: the
/// data-section-relative target and the offset just past the pointer.
pub open spec fn spec_parse_pointer(data: Seq<u8>, p: int, c: u8) -> Result<(int, int), Seq<char>> {
    let ps = (c / 8) % 4;
    let b = (c % 8) as int;
    if ps == 0 {
        if p + 1 <= data.len() {
            Ok((b * 256 + data[p] as int, p + 1))
        } else {
            Err("unexpected EOF in data section"@)
        }
    } else if ps == 1 {
        if p + 2 <= data.len() {
            Ok((2048 + b * 65536 + spec_be(data.subrange(p, p + 2)) as int, p + 2))
        } else {
            Err("unexpected EOF in data section"@)
        }
    } else if ps == 2 {
        if p + 3 <= data.len() {
            Ok((526336 + b * 16777216 + spec_be(data.subrange(p, p + 3)) as int, p + 3))
        } else {
            Err("unexpected EOF in data section"@)
        }
    } else {
        if p + 4 <= data.len() {
            Ok((spec_be(data.subrange(p, p + 4)) as int, p + 4))
        } else {
            Err("unexpected EOF in data section"@)
        }
    }
}

/// The concrete type tag of a non-pointer value whose control byte stands at
/// `p`, and the offset where its size field begins. An extended tag below 8
/// is malformed.
pub open spec fn spec_type_tag(data: Seq<u8>, p: int) -> Result<(int, int), Seq<char>> {
    let t = data[p] / 32;
    if t != 0 {
        Ok((t as int, p + 1))
    } else if p + 1 < data.len() {
        if data[p + 1] + 7 >= 8 {
            Ok((data[p + 1] + 7, p + 2))
        } else {
            Err("unknown type: "@ + spec_decimal(7))
        }
    } else {
        Err("unexpected EOF in data section"@)
    }
}

/// Sign extension of the `sz`-byte big-endian value `m` (two's complement).
pub open spec fn spec_sign_extend(m: nat, sz: int) -> int {
    if sz <= 0 {
        0
    } else if m >= pow256(sz) / 2 {
        m - pow256(sz)
    } else {
        m as int
    }
}

/// Decoding one value of the data section at offset `p`, resolving pointers
/// relative to `base`: the value and the offset just past its encoding, or
/// an error for any structural fault (truncation, a pointer out of range,
/// an unknown or malformed tag, exhausted depth).
pub open spec fn spec_decode(data: Seq<u8>, base: int, p: int, depth: nat) -> Result<
    (SpecVal, int),
    Seq<char>,
>
    decreases depth, 1nat, 1nat,
{
    if depth == 0 {
        Err("pointer cycle"@)
    } else if p < 0 || p >= data.len() {
        Err("unexpected EOF in data section"@)
    } else {
        let c = data[p];
        if c / 32 == 1 {
            match spec_parse_pointer(data, p + 1, c) {
                Ok((q, next)) => {
                    if base + q < data.len() {
                        match spec_decode(data, base, base + q, (depth - 1) as nat) {
                            Ok((v, _)) => Ok((v, next)),
                            Err(e) => Err(e),
                        }
                    } else {
                        Err("pointer out of range"@)
                    }
                },
                Err(e) => Err(e),
            }
        } else {
            match spec_type_tag(data, p) {
                Ok((tag, p1)) => match spec_parse_size(data, p1, (c % 32) as int) {
                    Ok((sz, p2)) => spec_decode_body(data, base, tag, sz, p2, depth),
                    Err(e) => Err(e),
                },
                Err(e) => Err(e),
            }
        }
    }
}

/// Decoding the payload of a value whose tag and size are known and whose
/// payload begins at `p`.
pub open spec fn spec_decode_body(
    data: Seq<u8>,
    base: int,
    tag: int,
    sz: int,
    p: int,
    depth: nat,
) -> Result<(SpecVal, int), Seq<char>>
    decreases depth, 1nat, 0nat,
{
    if tag == 7 {
        match spec_decode_entries(data, base, p, sz, depth) {
            Ok((entries, end)) => Ok((SpecVal::Dict(entries), end)),
            Err(e) => Err(e),
        }
    } else if tag == 11 {
        match spec_decode_items(data, base, p, sz, depth) {
            Ok((items, end)) => Ok((SpecVal::Array(items), end)),
            Err(e) => Err(e),
        }
    } else if tag == 14 {
        if sz == 0 {
            Ok((SpecVal::Bool(false), p))
        } else if sz == 1 {
            Ok((SpecVal::Bool(true), p))
        } else {
            Err("bool of size "@ + spec_decimal(sz as nat))
        }
    } else if !(tag == 2 || tag == 3 || tag == 4 || tag == 5 || tag == 6 || tag == 8 || tag == 9
        || tag == 10 || tag == 15) {
        if tag == 12 {
            Err("unexpected data cache container"@)
        } else if tag == 13 {
            Err("unexpected end marker"@)
        } else {
            Err("unknown type: "@ + spec_decimal(tag as nat))
        }
    } else if p + sz > data.len() {
        Err("unexpected EOF in data section"@)
    } else {
        let payload = data.subrange(p, p + sz);
        let end = p + sz;
        if tag == 2 {
            if valid_utf8(payload) {
                Ok((SpecVal::Text(decode_utf8(payload)), end))
            } else {
                Err("invalid utf-8 in string"@)
            }
        } else if tag == 3 {
            if sz == 8 {
                Ok((SpecVal::DoubleBits(spec_be(payload) as u64), end))
            } else {
                Err("double of size "@ + spec_decimal(sz as nat))
            }
        } else if tag == 4 {
            Ok((SpecVal::Bytes(payload), end))
        } else if tag == 5 {
            if sz <= 2 {
                Ok((SpecVal::Uint16(spec_be(payload) as u16), end))
            } else {
                Err("u16 of size "@ + spec_decimal(sz as nat))
            }
        } else if tag == 6 {
            if sz <= 4 {
                Ok((SpecVal::Uint32(spec_be(payload) as u32), end))
            } else {
                Err("u32 of size "@ + spec_decimal(sz as nat))
            }
        } else if tag == 8 {
            if sz <= 4 {
                Ok((SpecVal::Int32(spec_sign_extend(spec_be(payload), sz) as i32), end))
            } else {
                Err("int32 of size "@ + spec_decimal(sz as nat))
            }
        } else if tag == 9 {
            if sz <= 8 {
                Ok((SpecVal::Uint64(spec_be(payload) as u64), end))
            } else {
                Err("u64 of size "@ + spec_decimal(sz as nat))
            }
        } else if tag == 10 {
            if sz <= 16 {
                Ok((SpecVal::Uint128(spec_be(payload) as u128), end))
            } else {
                Err("u128 of size "@ + spec_decimal(sz as nat))
            }
        } else if tag == 15 {
            if sz == 4 {
                Ok((SpecVal::FloatBits(spec_be(payload) as u32), end))
            } else {
                Err("float of size "@ + spec_decimal(sz as nat))
            }
        } else {
            Err("unknown type: "@ + spec_decimal(tag as nat))
        }
    }
}

/// Decoding `n` key/value pairs of a map in sequence from offset `p`: the
/// entries in order and the offset just past the last. A key that is not a
/// string is an error.
pub open spec fn spec_decode_entries(data: Seq<u8>, base: int, p: int, n: int, depth: nat) -> Result<
    (Seq<(Seq<char>, SpecVal)>, int),
    Seq<char>,
>
    decreases depth, 0nat, n,
{
    if n <= 0 {
        Ok((Seq::empty(), p))
    } else if depth == 0 {
        Err("pointer cycle"@)
    } else {
        match spec_decode(data, base, p, (depth - 1) as nat) {
            Ok((k, p1)) => match k {
                SpecVal::Text(ks) => match spec_decode(data, base, p1, (depth - 1) as nat) {
                    Ok((v, p2)) => match spec_decode_entries(data, base, p2, n - 1, depth) {
                        Ok((rest, end)) => Ok((seq![(ks, v)] + rest, end)),
                        Err(e) => Err(e),
                    },
                    Err(e) => Err(e),
                },
                _ => Err("map key is not a string"@),
            },
            Err(e) => Err(e),
        }
    }
}

/// Decoding `n` array elements in sequence from offset `p`.
pub open spec fn spec_decode_items(data: Seq<u8>, base: int, p: int, n: int, depth: nat) -> Result<
    (Seq<SpecVal>, int),
    Seq<char>,
>
    decreases depth, 0nat, n,
{
    if n <= 0 {
        Ok((Seq::empty(), p))
    } else if depth == 0 {
        Err("pointer cycle"@)
    } else {
        match spec_decode(data, base, p, (depth - 1) as nat) {
            Ok((v, p1)) => match spec_decode_items(data, base, p1, n - 1, depth) {
                Ok((rest, end)) => Ok((seq![v] + rest, end)),
                Err(e) => Err(e),
            },
            Err(e) => Err(e),
        }
    }
}

/// Builds the structural-corruption error that decoding surfaces.
pub(crate) fn invalid(msg: &str) -> (e: MaxMindDBError)
    ensures
        e is InvalidDatabaseError,
        e.spec_message() == msg@,
{
    MaxMindDBError::InvalidDatabaseError(msg.to_owned())
}

/// Builds a structural-corruption error whose message ends in a decimal
/// number, as in "double of size 2".
pub(crate) fn invalid_num(prefix: &str, n: u64) -> (e: MaxMindDBError)
    ensures
        e is InvalidDatabaseError,
        e.spec_message() == prefix@ + crate::error::spec_decimal(n as nat),
{
    MaxMindDBError::InvalidDatabaseError(prefix.to_owned().concat(u64_to_string(n).as_str()))
}

/// Relies on `String::from_utf8`: it returns `Ok` exactly when the bytes are
/// valid UTF-8, and the returned string's bytes are the input bytes.
#[verifier::external_body]
fn vec_to_string(bytes: Vec<u8>) -> (r: Option<String>)
    ensures
        r is Some <==> valid_utf8(bytes@),
        r matches Some(s) ==> encode_utf8(s@) == bytes@,
{
    String::from_utf8(bytes).ok()
}

/// Reads `len` big-endian bytes at `p` into an unsigned accumulator.
fn read_be(data: &Vec<u8>, p: usize, len: usize) -> (r: u128)
    requires
        p + len <= data@.len(),
        len <= 16,
    ensures
        r == spec_be(data@.subrange(p as int, p + len)),
{
    let mut acc: u128 = 0;
    let mut i: usize = 0;
    proof {
        assert(data@.subrange(p as int, p as int) =~= Seq::<u8>::empty());
    }
    while i < len
        invariant
            p + len <= data@.len(),
            len <= 16,
            0 <= i <= len,
            acc == spec_be(data@.subrange(p as int, p + i)),
            acc < pow256(i as int),
        decreases len - i,
    {
        proof {
            assert(data.len() == data@.len());
            let prefix = data@.subrange(p as int, p + i + 1);
            assert(prefix.drop_last() =~= data@.subrange(p as int, p + i));
            assert(prefix.last() == data@[p + i]);
            assert(pow256(i + 1) == 256 * pow256(i as int));
            assert(pow256(16) == 0x100000000000000000000000000000000) by {
                reveal_with_fuel(pow256, 17);
            }
            lemma_pow256_monotonic(i + 1, 16);
        }
        acc = acc * 256 + (data[p + i] as u128);
        i = i + 1;
    }
    acc
}

/// `256^a <= 256^b` when `a <= b`.
pub proof fn lemma_pow256_monotonic(a: int, b: int)
    requires
        a <= b,
    ensures
        pow256(a) <= pow256(b),
    decreases b - a,
{
    if a < b {
        lemma_pow256_monotonic(a, b - 1);
    }
}

/// Copies `len` bytes at `p` out of the source.
fn read_bytes(data: &Vec<u8>, p: usize, len: usize) -> (r: Vec<u8>)
    requires
        p + len <= data@.len(),
    ensures
        r@ == data@.subrange(p as int, p + len),
{
    let mut r: Vec<u8> = Vec::new();
    let mut i: usize = 0;
    while i < len
        invariant
            p + len <= data@.len(),
            0 <= i <= len,
            r@ =~= data@.subrange(p as int, p + i),
        decreases len - i,
    {
        proof {
            assert(data.len() == data@.len());
        }
        r.push(data[p + i]);
        proof {
            assert(r@ =~= data@.subrange(p as int, p + i + 1));
        }
        i = i + 1;
    }
    r
}

/// Reads the size field that follows a control byte with low bits `low`.
fn parse_size(data: &Vec<u8>, p: usize, low: u8) -> (r: Result<(usize, usize), MaxMindDBError>)
    requires
        p <= data@.len(),
        low < 32,
    ensures
        match r {
            Ok((sz, next)) => {
                &&& spec_parse_size(data@, p as int, low as int) == Ok::<_, Seq<char>>((
                    sz as int,
                    next as int,
                ))
                &&& p <= next <= data@.len()
                &&& sz <= 16843036
            },
            Err(e) => {
                &&& spec_parse_size(data@, p as int, low as int) == Err::<(int, int), Seq<char>>(
                    e.spec_message(),
                )
                &&& e is InvalidDatabaseError
            },
        },
{
    if low < 29 {
        Ok((low as usize, p))
    } else if low == 29 {
        if p < data.len() {
            Ok((29 + data[p] as usize, p + 1))
        } else {
            Err(invalid("unexpected EOF in data section"))
        }
    } else if low == 30 {
        if data.len() - p >= 2 {
            let v = read_be(data, p, 2);
            proof {
                lemma_spec_be_bound(data@.subrange(p as int, p + 2));
                assert(pow256(2) == 65536) by {
                    reveal_with_fuel(pow256, 3);
                }
            }
            Ok((285 + (v as usize), p + 2))
        } else {
            Err(invalid("unexpected EOF in data section"))
        }
    } else {
        if data.len() - p >= 3 {
            let v = read_be(data, p, 3);
            proof {
                lemma_spec_be_bound(data@.subrange(p as int, p + 3));
                assert(pow256(3) == 16777216) by {
                    reveal_with_fuel(pow256, 4);
                }
            }
            Ok((65821 + (v as usize), p + 3))
        } else {
            Err(invalid("unexpected EOF in data section"))
        }
    }
}

/// Reads the pointer encoded by control byte `c`, whose extra bytes begin at
/// `p`.
fn parse_pointer(data: &Vec<u8>, p: usize, c: u8) -> (r: Result<
    (usize, usize),
    MaxMindDBError,
>)
    requires
        p <= data@.len(),
        c / 32 == 1,
    ensures
        match r {
            Ok((q, next)) => {
                &&& spec_parse_pointer(data@, p as int, c) == Ok::<_, Seq<char>>((q as int, next as int))
                &&& p <= next <= data@.len()
                &&& q < 0x100000000
            },
            Err(e) => {
                &&& spec_parse_pointer(data@, p as int, c) == Err::<(int, int), Seq<char>>(
                    e.spec_message(),
                )
                &&& e is InvalidDatabaseError
            },
        },
{
    let ps = (c / 8) % 4;
    let b = (c % 8) as usize;
    if ps == 0 {
        if p < data.len() {
            Ok((b * 256 + data[p] as usize, p + 1))
        } else {
            Err(invalid("unexpected EOF in data section"))
        }
    } else if ps == 1 {
        if data.len() - p >= 2 {
            let v = read_be(data, p, 2);
            proof {
                lemma_spec_be_bound(data@.subrange(p as int, p + 2));
                assert(pow256(2) == 65536) by {
                    reveal_with_fuel(pow256, 3);
                }
            }
            Ok((2048 + b * 65536 + (v as usize), p + 2))
        } else {
            Err(invalid("unexpected EOF in data section"))
        }
    } else if ps == 2 {
        if data.len() - p >= 3 {
            let v = read_be(data, p, 3);
            proof {
                lemma_spec_be_bound(data@.subrange(p as int, p + 3));
                assert(pow256(3) == 16777216) by {
                    reveal_with_fuel(pow256, 4);
                }
            }
            Ok((526336 + b * 16777216 + (v as usize), p + 3))
        } else {
            Err(invalid("unexpected EOF in data section"))
        }
    } else {
        if data.len() - p >= 4 {
            let v = read_be(data, p, 4);
            proof {
                lemma_spec_be_bound(data@.subrange(p as int, p + 4));
                assert(pow256(4) == 0x100000000) by {
                    reveal_with_fuel(pow256, 5);
                }
            }
            Ok((v as usize, p + 4))
        } else {
            Err(invalid("unexpected EOF in data section"))
        }
    }
}

/// The size field a conformant encoder writes for size `n`: the low five
/// control bits and the extension bytes that follow them.
pub open spec fn spec_encode_size(n: int) -> (int, Seq<u8>) {
    if n < 29 {
        (n, Seq::empty())
    } else if n <= 284 {
        (29, seq![(n - 29) as u8])
    } else if n <= 65820 {
        (30, seq![((n - 285) / 256) as u8, ((n - 285) % 256) as u8])
    } else {
        (
            31,
            seq![
                ((n - 65821) / 65536) as u8,
                (((n - 65821) / 256) % 256) as u8,
                ((n - 65821) % 256) as u8,
            ],
        )
    }
}

/// Law: the size field round-trips. For any encodable size `n`, parsing the
/// low bits and extension bytes a conformant encoder writes yields `n`
/// back, consuming exactly those extension bytes.
pub proof fn lemma_size_field_round_trip(data: Seq<u8>, p: int, n: int)
    requires
        0 <= n <= 16843036,
        0 <= p,
        p + spec_encode_size(n).1.len() <= data.len(),
        data.subrange(p, p + spec_encode_size(n).1.len() as int) == spec_encode_size(n).1,
    ensures
        spec_parse_size(data, p, spec_encode_size(n).0) == Ok::<_, Seq<char>>((
            n,
            p + spec_encode_size(n).1.len(),
        )),
{
    let ext = spec_encode_size(n).1;
    if n < 29 {
    } else if n <= 284 {
        assert(data.subrange(p, p + 1)[0] == data[p]);
        assert(data[p] == (n - 29) as u8);
    } else if n <= 65820 {
        let m = n - 285;
        let a = (m / 256) as u8;
        let b = (m % 256) as u8;
        assert(ext =~= seq![a, b]);
        assert(data.subrange(p, p + 2) =~= ext);
        assert(ext.drop_last() =~= seq![a]);
        assert(seq![a].drop_last() =~= Seq::<u8>::empty());
        assert(spec_be(Seq::<u8>::empty()) == 0);
        assert(spec_be(seq![a]) == a);
        assert(spec_be(ext) == a * 256 + b);
        assert(a * 256 + b == m);
    } else {
        let m = n - 65821;
        let a = (m / 65536) as u8;
        let b = ((m / 256) % 256) as u8;
        let c = (m % 256) as u8;
        assert(ext =~= seq![a, b, c]);
        assert(data.subrange(p, p + 3) =~= ext);
        assert(ext.drop_last() =~= seq![a, b]);
        assert(seq![a, b].drop_last() =~= seq![a]);
        assert(seq![a].drop_last() =~= Seq::<u8>::empty());
        assert(spec_be(Seq::<u8>::empty()) == 0);
        assert(spec_be(seq![a]) == a);
        assert(spec_be(seq![a, b]) == a * 256 + b);
        assert(spec_be(ext) == (a * 256 + b) * 256 + c);
        assert(m / 65536 == (m / 256) / 256) by (nonlinear_arith);
        assert((m / 256) / 256 * 256 + (m / 256) % 256 == m / 256);
        assert((m / 256) * 256 + m % 256 == m);
        assert((a * 256 + b) * 256 + c == m);
    }
}

/// Law: a pointer resolves transparently. Decoding a value whose control
/// byte marks a pointer yields exactly the value that decoding directly at
/// the pointer's target yields (one depth step down), and the cursor
/// advances past the pointer's own bytes alone.
pub proof fn lemma_pointer_round_trip(data: Seq<u8>, base: int, p: int, depth: nat)
    requires
        depth >= 1,
        0 <= p < data.len(),
        data[p] / 32 == 1,
    ensures
        spec_decode(data, base, p, depth) == (match spec_parse_pointer(data, p + 1, data[p]) {
            Ok((q, next)) => if base + q < data.len() {
                match spec_decode(data, base, base + q, (depth - 1) as nat) {
                    Ok((v, _)) => Ok::<(SpecVal, int), Seq<char>>((v, next)),
                    Err(e) => Err(e),
                }
            } else {
                Err("pointer out of range"@)
            },
            Err(e) => Err(e),
        }),
{
}

/// Decodes the payload of a non-container value: every tag but map and
/// array, including the malformed and unknown ones.
#[verifier::rlimit(100)]
fn decode_primitive(
    data: &Vec<u8>,
    tag: u16,
    sz: usize,
    p2: usize,
    Ghost(gbase): Ghost<int>,
    Ghost(dd): Ghost<nat>,
) -> (r: Result<(Value, usize), MaxMindDBError>)
    requires
        p2 <= data@.len(),
        sz <= 16843036,
        tag != 7,
        tag != 11,
    ensures
        match r {
            Ok((v, end)) => {
                &&& spec_decode_body(data@, gbase, tag as int, sz as int, p2 as int, dd)
                    == Ok::<_, Seq<char>>((v@, end as int))
                &&& p2 <= end <= data@.len()
            },
            Err(e) => {
                &&& spec_decode_body(data@, gbase, tag as int, sz as int, p2 as int, dd)
                    == Err::<(SpecVal, int), Seq<char>>(e.spec_message())
                &&& e is InvalidDatabaseError
            },
        },
{
    let ghost d = data@;
    if tag == 14 {
        if sz == 0 {
            Ok((Value::Bool(false), p2))
        } else if sz == 1 {
            Ok((Value::Bool(true), p2))
        } else {
            Err(invalid_num("bool of size ", sz as u64))
        }
    } else if tag == 2 || tag == 3 || tag == 4 || tag == 5 || tag == 6 || tag == 8 || tag == 9
        || tag == 10 || tag == 15 {
        if sz > data.len() - p2 {
            return Err(invalid("unexpected EOF in data section"));
        }
        let end = p2 + sz;
        let ghost payload = d.subrange(p2 as int, p2 + sz);
        proof {
            lemma_spec_be_bound(payload);
            assert(pow256(1) == 256 && pow256(2) == 65536 && pow256(3) == 16777216 && pow256(4)
                == 0x100000000) by {
                reveal_with_fuel(pow256, 5);
            }
        }
        if tag == 2 {
            let bytes = read_bytes(data, p2, sz);
            match vec_to_string(bytes) {
                Some(s) => {
                    proof {
                        encode_utf8_decode_utf8(s@);
                    }
                    Ok((Value::Text(s), end))
                },
                None => Err(invalid("invalid utf-8 in string")),
            }
        } else if tag == 3 {
            if sz == 8 {
                let m = read_be(data, p2, 8);
                proof {
                    assert(pow256(8) == 0x10000000000000000) by {
                        reveal_with_fuel(pow256, 9);
                    }
                }
                Ok((Value::DoubleBits(m as u64), end))
            } else {
                Err(invalid_num("double of size ", sz as u64))
            }
        } else if tag == 4 {
            Ok((Value::Bytes(read_bytes(data, p2, sz)), end))
        } else if tag == 5 {
            if sz <= 2 {
                let m = read_be(data, p2, sz);
                proof {
                    lemma_pow256_monotonic(sz as int, 2);
                }
                Ok((Value::Uint16(m as u16), end))
            } else {
                Err(invalid_num("u16 of size ", sz as u64))
            }
        } else if tag == 6 {
            if sz <= 4 {
                let m = read_be(data, p2, sz);
                proof {
                    lemma_pow256_monotonic(sz as int, 4);
                }
                Ok((Value::Uint32(m as u32), end))
            } else {
                Err(invalid_num("u32 of size ", sz as u64))
            }
        } else if tag == 8 {
            if sz <= 4 {
                let m = read_be(data, p2, sz);
                proof {
                    lemma_pow256_monotonic(sz as int, 4);
                }
                let val: i32 = if sz == 0 {
                    0
                } else if sz == 1 {
                    if m >= 128 {
                        ((m as i64) - 256) as i32
                    } else {
                        m as i32
                    }
                } else if sz == 2 {
                    if m >= 32768 {
                        ((m as i64) - 65536) as i32
                    } else {
                        m as i32
                    }
                } else if sz == 3 {
                    if m >= 8388608 {
                        ((m as i64) - 16777216) as i32
                    } else {
                        m as i32
                    }
                } else {
                    if m >= 2147483648 {
                        ((m as i64) - 0x100000000i64) as i32
                    } else {
                        m as i32
                    }
                };
                Ok((Value::Int32(val), end))
            } else {
                Err(invalid_num("int32 of size ", sz as u64))
            }
        } else if tag == 9 {
            if sz <= 8 {
                let m = read_be(data, p2, sz);
                proof {
                    assert(pow256(8) == 0x10000000000000000) by {
                        reveal_with_fuel(pow256, 9);
                    }
                    lemma_pow256_monotonic(sz as int, 8);
                }
                Ok((Value::Uint64(m as u64), end))
            } else {
                Err(invalid_num("u64 of size ", sz as u64))
            }
        } else if tag == 10 {
            if sz <= 16 {
                let m = read_be(data, p2, sz);
                Ok((Value::Uint128(m), end))
            } else {
                Err(invalid_num("u128 of size ", sz as u64))
            }
        } else {
            if sz == 4 {
                let m = read_be(data, p2, sz);
                Ok((Value::FloatBits(m as u32), end))
            } else {
                Err(invalid_num("float of size ", sz as u64))
            }
        }
    } else if tag == 12 {
        Err(invalid("unexpected data cache container"))
    } else if tag == 13 {
        Err(invalid("unexpected end marker"))
    } else {
        Err(invalid_num("unknown type: ", tag as u64))
    }
}

/// Decodes the value at offset `p`, resolving pointers relative to `base`,
/// with at most `depth` nested steps left. On success the result is exactly
/// the value the format assigns to that offset, together with the offset
/// just past its encoding; every structural fault is an
/// `InvalidDatabaseError`.
#[verifier::loop_isolation(false)]
#[verifier::rlimit(100)]
pub fn decode_at(data: &Vec<u8>, base: usize, p: usize, depth: u32) -> (r: Result<
    (Value, usize),
    MaxMindDBError,
>)
    requires
        base <= data@.len(),
    ensures
        match r {
            Ok((v, end)) => {
                &&& spec_decode(data@, base as int, p as int, depth as nat) == Ok::<_, Seq<char>>((
                    v@,
                    end as int,
                ))
                &&& p <= end <= data@.len()
            },
            Err(e) => {
                &&& spec_decode(data@, base as int, p as int, depth as nat) == Err::<
                    (SpecVal, int),
                    Seq<char>,
                >(e.spec_message())
                &&& e is InvalidDatabaseError
            },
        },
    decreases depth,
{
    let ghost d = data@;
    if depth == 0 {
        return Err(invalid("pointer cycle"));
    }
    if p >= data.len() {
        return Err(invalid("unexpected EOF in data section"));
    }
    let c = data[p];
    if c / 32 == 1 {
        // A pointer into the data section.
        let (q, next) = match parse_pointer(data, p + 1, c) {
            Ok(x) => x,
            Err(e) => {
                return Err(e);
            },
        };
        if q >= data.len() - base {
            return Err(invalid("pointer out of range"));
        }
        match decode_at(data, base, base + q, depth - 1) {
            Ok((v, _after_target)) => Ok((v, next)),
            Err(e) => Err(e),
        }
    } else {
        // The concrete type tag, reading the extension byte if there is one.
        let (tag, p1): (u16, usize) = if c / 32 == 0 {
            if p + 1 < data.len() {
                let ext = data[p + 1];
                if ext >= 1 {
                    (ext as u16 + 7, p + 2)
                } else {
                    return Err(invalid_num("unknown type: ", 7));
                }
            } else {
                return Err(invalid("unexpected EOF in data section"));
            }
        } else {
            ((c / 32) as u16, p + 1)
        };
        proof {
            assert(spec_type_tag(d, p as int) == Ok::<_, Seq<char>>((tag as int, p1 as int)));
        }
        let (sz, p2) = match parse_size(data, p1, c % 32) {
            Ok(x) => x,
            Err(e) => {
                return Err(e);
            },
        };
        let ghost dd = depth as nat;
        proof {
            assert(spec_decode(d, base as int, p as int, dd) == spec_decode_body(
                d,
                base as int,
                tag as int,
                sz as int,
                p2 as int,
                dd,
            ));
        }
        if tag == 7 {
            // A map of `sz` key/value pairs.
            let mut entries: Vec<(String, Value)> = Vec::new();
            let mut cur: usize = p2;
            let mut i: usize = 0;
            proof {
                assert(view_entries(entries@) =~= Seq::<(Seq<char>, SpecVal)>::empty());
            }
            while i < sz
                invariant
                    0 <= i <= sz,
                    p2 <= cur <= d.len(),
                    spec_decode_entries(d, base as int, p2 as int, sz as int, dd) == (
                    match spec_decode_entries(d, base as int, cur as int, sz - i, dd) {
                        Ok((rest, end)) => Ok::<_, Seq<char>>((view_entries(entries@) + rest, end)),
                        Err(e) => Err(e),
                    }),
                decreases sz - i,
            {
                let (kv, kp) = match decode_at(data, base, cur, depth - 1) {
                    Ok(x) => x,
                    Err(e) => {
                        return Err(e);
                    },
                };
                let ks = match kv {
                    Value::Text(s) => s,
                    _ => {
                        return Err(invalid("map key is not a string"));
                    },
                };
                let (vv, vp) = match decode_at(data, base, kp, depth - 1) {
                    Ok(x) => x,
                    Err(e) => {
                        return Err(e);
                    },
                };
                proof {
                    assert(spec_decode_entries(d, base as int, cur as int, sz - i, dd) == (
                    match spec_decode_entries(d, base as int, vp as int, sz - i - 1, dd) {
                        Ok((rest, end)) => Ok::<_, Seq<char>>((seq![(ks@, vv@)] + rest, end)),
                        Err(e) => Err(e),
                    }));
                }
                let ghost before = entries@;
                let pair = (ks, vv);
                let ghost gpair = pair;
                entries.push(pair);
                proof {
                    assert(entries@ == before.push(gpair));
                    crate::value::lemma_view_entries_push(before, gpair);
                    assert(forall|rest: Seq<(Seq<char>, SpecVal)>|
                        view_entries(entries@) + rest =~= view_entries(before) + (seq![
                            (gpair.0@, gpair.1@),
                        ] + rest));
                }
                cur = vp;
                i = i + 1;
            }
            proof {
                assert(spec_decode_entries(d, base as int, cur as int, 0, dd) == Ok::<_, Seq<char>>((
                    Seq::<(Seq<char>, SpecVal)>::empty(),
                    cur as int,
                )));
                assert(view_entries(entries@) + Seq::<(Seq<char>, SpecVal)>::empty()
                    =~= view_entries(entries@));
            }
            Ok((Value::Dict(entries), cur))
        } else if tag == 11 {
            // An array of `sz` values.
            let mut items: Vec<Value> = Vec::new();
            let mut cur: usize = p2;
            let mut i: usize = 0;
            proof {
                assert(view_items(items@) =~= Seq::<SpecVal>::empty());
            }
            while i < sz
                invariant
                    0 <= i <= sz,
                    p2 <= cur <= d.len(),
                    spec_decode_items(d, base as int, p2 as int, sz as int, dd) == (
                    match spec_decode_items(d, base as int, cur as int, sz - i, dd) {
                        Ok((rest, end)) => Ok::<_, Seq<char>>((view_items(items@) + rest, end)),
                        Err(e) => Err(e),
                    }),
                decreases sz - i,
            {
                let (vv, vp) = match decode_at(data, base, cur, depth - 1) {
                    Ok(x) => x,
                    Err(e) => {
                        return Err(e);
                    },
                };
                proof {
                    assert(spec_decode_items(d, base as int, cur as int, sz - i, dd) == (
                    match spec_decode_items(d, base as int, vp as int, sz - i - 1, dd) {
                        Ok((rest, end)) => Ok::<_, Seq<char>>((seq![vv@] + rest, end)),
                        Err(e) => Err(e),
                    }));
                }
                let ghost before = items@;
                let ghost gval = vv;
                items.push(vv);
                proof {
                    assert(items@ == before.push(gval));
                    crate::value::lemma_view_items_push(before, gval);
                    assert(forall|rest: Seq<SpecVal>|
                        view_items(items@) + rest =~= view_items(before) + (seq![gval@] + rest));
                }
                cur = vp;
                i = i + 1;
            }
            proof {
                assert(spec_decode_items(d, base as int, cur as int, 0, dd) == Ok::<_, Seq<char>>((
                    Seq::<SpecVal>::empty(),
                    cur as int,
                )));
                assert(view_items(items@) + Seq::<SpecVal>::empty() =~= view_items(items@));
            }
            Ok((Value::Array(items), cur))
        } else {
            match decode_primitive(data, tag, sz, p2, Ghost(base as int), Ghost(dd)) {
                Ok((v, end)) => {
                    proof {
                        assert(p <= end);
                    }
                    Ok((v, end))
                },
                Err(e) => Err(e),
            }
        }
    }
}

} // verus!
