//! The tagged tree a decoded record takes: every shape the data section can
//! hold, and its mathematical view.
//!
//! IEEE 754 payloads are carried as their raw big-endian bit patterns
//! (`DoubleBits`, `FloatBits`); the engine never does float arithmetic.

use vstd::prelude::*;

verus! {

/// One decoded value from the data section.
#[derive(Debug)]
pub enum Value {
    /// A UTF-8 string.
    Text(String),
    /// The bit pattern of an IEEE 754 64-bit float, as read big-endian.
    DoubleBits(u64),
    /// Raw bytes.
    Bytes(Vec<u8>),
    Uint16(u16),
    Uint32(u32),
    /// A map: key/value pairs in the order they stand in the database.
    Dict(Vec<(String, Value)>),
    Int32(i32),
    Uint64(u64),
    Uint128(u128),
    /// An array of values in order.
    Array(Vec<Value>),
    Bool(bool),
    /// The bit pattern of an IEEE 754 32-bit float, as read big-endian.
    FloatBits(u32),
}

/// The mathematical shape of a decoded value.
pub enum SpecVal {
    Text(Seq<char>),
    DoubleBits(u64),
    Bytes(Seq<u8>),
    Uint16(u16),
    Uint32(u32),
    Dict(Seq<(Seq<char>, SpecVal)>),
    Int32(i32),
    Uint64(u64),
    Uint128(u128),
    Array(Seq<SpecVal>),
    Bool(bool),
    FloatBits(u32),
}

impl Value {
    /// The mathematical view of the value: strings become character
    /// sequences, vectors become sequences, recursively.
    pub open spec fn view(&self) -> SpecVal
        decreases *self,
    {
        match self {
            Value::Text(s) => SpecVal::Text(s@),
            Value::DoubleBits(b) => SpecVal::DoubleBits(*b),
            Value::Bytes(b) => SpecVal::Bytes(b@),
            Value::Uint16(n) => SpecVal::Uint16(*n),
            Value::Uint32(n) => SpecVal::Uint32(*n),
            Value::Dict(entries) => SpecVal::Dict(view_entries(entries@)),
            Value::Int32(n) => SpecVal::Int32(*n),
            Value::Uint64(n) => SpecVal::Uint64(*n),
            Value::Uint128(n) => SpecVal::Uint128(*n),
            Value::Array(items) => SpecVal::Array(view_items(items@)),
            Value::Bool(b) => SpecVal::Bool(*b),
            Value::FloatBits(b) => SpecVal::FloatBits(*b),
        }
    }
}

/// The views of a sequence of map entries, in order.
pub open spec fn view_entries(s: Seq<(String, Value)>) -> Seq<(Seq<char>, SpecVal)>
    decreases s,
{
    if s.len() == 0 {
        Seq::empty()
    } else {
        seq![(s[0].0@, s[0].1@)] + view_entries(s.subrange(1, s.len() as int))
    }
}

/// The views of a sequence of array elements, in order.
pub open spec fn view_items(s: Seq<Value>) -> Seq<SpecVal>
    decreases s,
{
    if s.len() == 0 {
        Seq::empty()
    } else {
        seq![s[0]@] + view_items(s.subrange(1, s.len() as int))
    }
}

/// Entry views index pointwise into the entries.
pub proof fn lemma_view_entries_index(s: Seq<(String, Value)>)
    ensures
        view_entries(s).len() == s.len(),
        forall|i: int|
            0 <= i < s.len() ==> view_entries(s)[i] == (s[i].0@, s[i].1@),
    decreases s.len(),
{
    if s.len() > 0 {
        lemma_view_entries_index(s.subrange(1, s.len() as int));
    }
}

/// Appending an entry appends its view.
pub proof fn lemma_view_entries_push(s: Seq<(String, Value)>, x: (String, Value))
    ensures
        view_entries(s.push(x)) == view_entries(s) + seq![(x.0@, x.1@)],
    decreases s.len(),
{
    if s.len() == 0 {
        assert(s.push(x)[0] == x);
        assert(s.push(x).subrange(1, 1) =~= Seq::<(String, Value)>::empty());
        assert(view_entries(Seq::<(String, Value)>::empty()) == Seq::<(
            Seq<char>,
            SpecVal,
        )>::empty());
        assert(view_entries(s.push(x)) =~= view_entries(s) + seq![(x.0@, x.1@)]);
    } else {
        let tail = s.subrange(1, s.len() as int);
        assert(s.push(x)[0] == s[0]);
        assert(s.push(x).subrange(1, s.len() as int + 1) =~= tail.push(x));
        lemma_view_entries_push(tail, x);
        assert(view_entries(s.push(x)) == seq![(s[0].0@, s[0].1@)] + view_entries(tail.push(x)));
        assert(view_entries(s.push(x)) =~= view_entries(s) + seq![(x.0@, x.1@)]);
    }
}

/// Appending an item appends its view.
pub proof fn lemma_view_items_push(s: Seq<Value>, x: Value)
    ensures
        view_items(s.push(x)) == view_items(s) + seq![x@],
    decreases s.len(),
{
    if s.len() == 0 {
        assert(s.push(x)[0] == x);
        assert(s.push(x).subrange(1, 1) =~= Seq::<Value>::empty());
        assert(view_items(Seq::<Value>::empty()) == Seq::<SpecVal>::empty());
        assert(view_items(s.push(x)) =~= view_items(s) + seq![x@]);
    } else {
        let tail = s.subrange(1, s.len() as int);
        assert(s.push(x)[0] == s[0]);
        assert(s.push(x).subrange(1, s.len() as int + 1) =~= tail.push(x));
        lemma_view_items_push(tail, x);
        assert(view_items(s.push(x)) == seq![s[0]@] + view_items(tail.push(x)));
        assert(view_items(s.push(x)) =~= view_items(s) + seq![x@]);
    }
}

/// Item views index pointwise into the items.
pub proof fn lemma_view_items_index(s: Seq<Value>)
    ensures
        view_items(s).len() == s.len(),
        forall|i: int| 0 <= i < s.len() ==> view_items(s)[i] == s[i]@,
    decreases s.len(),
{
    if s.len() > 0 {
        lemma_view_items_index(s.subrange(1, s.len() as int));
    }
}

/// The first value bound to `key` in `entries`, if any.
pub open spec fn spec_dict_get(entries: Seq<(Seq<char>, SpecVal)>, key: Seq<char>) -> Option<
    SpecVal,
>
    decreases entries.len(),
{
    if entries.len() == 0 {
        None
    } else if entries[0].0 == key {
        Some(entries[0].1)
    } else {
        spec_dict_get(entries.drop_first(), key)
    }
}

/// Looks `key` up among the entries of a decoded map, first match wins.
pub fn dict_get<'a>(entries: &'a Vec<(String, Value)>, key: &str) -> (r: Option<&'a Value>)
    ensures
        match r {
            Some(v) => spec_dict_get(Value::Dict(*entries)@->Dict_0, key@) == Some(v@),
            None => spec_dict_get(Value::Dict(*entries)@->Dict_0, key@) is None,
        },
{
    let ghost full: Seq<(Seq<char>, SpecVal)> = view_entries(entries@);
    proof {
        lemma_view_entries_index(entries@);
        assert(full.skip(0) =~= full);
    }
    let owned_key = key.to_owned();
    let n = entries.len();
    let mut i: usize = 0;
    while i < n
        invariant
            n == entries.len(),
            0 <= i <= n,
            owned_key@ == key@,
            full == view_entries(entries@),
            full.len() == n,
            forall|j: int| 0 <= j < n ==> full[j] == (entries@[j].0@, entries@[j].1@),
            spec_dict_get(full, key@) == spec_dict_get(full.skip(i as int), key@),
        decreases n - i,
    {
        proof {
            assert(full.skip(i as int)[0] == full[i as int]);
        }
        if entries[i].0 == owned_key {
            proof {
                assert(spec_dict_get(full.skip(i as int), key@) == Some(full[i as int].1));
            }
            return Some(&entries[i].1);
        }
        proof {
            assert(full.skip(i as int).drop_first() =~= full.skip(i + 1));
        }
        i = i + 1;
    }
    proof {
        assert(full.skip(n as int).len() == 0);
    }
    None
}

} // verus!
