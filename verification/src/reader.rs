//! The reader: opens a database image, locates and binds the metadata,
//! derives the tree geometry, and answers lookups by walking the search
//! tree bit by bit and decoding the record the matched leaf points at.

use vstd::prelude::*;
use vstd::slice::slice_subrange;

use crate::decoder::{decode_at, invalid, pow256, spec_be, spec_decode, DECODE_DEPTH_LIMIT};
use crate::error::{spec_decimal, MaxMindDBError};
use crate::locator::{find_metadata_start, is_metadata_start, marker_at};
use crate::metadata::{spec_metadata_of, spec_metadata_view, Metadata};
use crate::value::{SpecVal, Value};

verus! {

/// Why a lookup failed, in the mathematical model: the walk reached a null
/// record, the query does not fit the database's IP version, or the
/// database is structurally corrupt.
pub enum SpecLookupErr {
    NotFound,
    InvalidNetwork,
    /// Structural corruption, with the message the reader surfaces.
    Corrupt(Seq<char>),
}

/// Folds `bytes` big-endian onto `base`: each byte shifts the accumulator
/// up by eight bits. The result is `base * 256^len + value(bytes)`.
pub fn to_usize(base: u8, bytes: &[u8]) -> (r: usize)
    requires
        bytes@.len() <= 4,
        base * pow256(bytes@.len() as int) + spec_be(bytes@) <= usize::MAX,
    ensures
        r == base * pow256(bytes@.len() as int) + spec_be(bytes@),
{
    let len = bytes.len();
    let mut acc: u64 = base as u64;
    let mut i: usize = 0;
    proof {
        assert(bytes@.subrange(0, 0) =~= Seq::<u8>::empty());
        assert(pow256(0) == 1);
        assert(spec_be(bytes@.subrange(0, 0)) == 0);
        assert(pow256(5) == 0x10000000000) by {
            reveal_with_fuel(pow256, 6);
        }
    }
    while i < len
        invariant
            len == bytes@.len() <= 4,
            0 <= i <= len,
            acc == base * pow256(i as int) + spec_be(bytes@.subrange(0, i as int)),
            acc < 256 * pow256(i as int),
        decreases len - i,
    {
        proof {
            let prefix = bytes@.subrange(0, i + 1);
            assert(prefix.drop_last() =~= bytes@.subrange(0, i as int));
            assert(prefix.last() == bytes@[i as int]);
            assert(pow256(i + 1) == 256 * pow256(i as int));
            crate::decoder::lemma_pow256_monotonic(i as int, 4);
            assert(pow256(4) == 0x100000000) by {
                reveal_with_fuel(pow256, 5);
            }
            assert(acc * 256 == (base * pow256(i as int) + spec_be(bytes@.subrange(0, i as int)))
                * 256);
            assert((base * pow256(i as int) + spec_be(bytes@.subrange(0, i as int))) * 256 == base
                * (256 * pow256(i as int)) + spec_be(bytes@.subrange(0, i as int)) * 256)
                by (nonlinear_arith);
        }
        acc = acc * 256 + (bytes[i] as u64);
        i = i + 1;
    }
    proof {
        assert(bytes@.subrange(0, len as int) =~= bytes@);
    }
    acc as usize
}

/// Bit `i` of the address, bits most significant first within each octet.
pub open spec fn spec_bit(ip: Seq<u8>, i: int) -> usize {
    ((ip[i / 8] as usize) >> ((7 - (i % 8)) as usize)) & 1
}

/// The `index`-th record (left 0, right 1) of tree node `node`, under the
/// packing the record size dictates.
pub open spec fn spec_node_value(data: Seq<u8>, record_size: u16, node: int, index: int) -> int {
    if record_size == 24 {
        let offset = node * 6 + index * 3;
        spec_be(data.subrange(offset, offset + 3)) as int
    } else if record_size == 28 {
        let base = node * 7;
        let middle = data[base + 3];
        let nibble = if index == 0 {
            middle as int / 16
        } else {
            middle as int % 16
        };
        let offset = base + index * 4;
        nibble * 16777216 + spec_be(data.subrange(offset, offset + 3))
    } else {
        let offset = node * 8 + index * 4;
        spec_be(data.subrange(offset, offset + 4)) as int
    }
}

/// Walking the search tree from `node` with bit `i` next: stops as soon as
/// the node index leaves the node range, and classifies the stop as a miss
/// (0) or a data pointer; running out of bits while still at an inner node
/// is the corruption the walk reports.
pub open spec fn spec_walk(
    data: Seq<u8>,
    node_count: int,
    record_size: u16,
    ip: Seq<u8>,
    node: int,
    i: int,
) -> Result<(int, int), ()>
    decreases 8 * ip.len() - i,
{
    if node == node_count {
        Ok((0, i))
    } else if node > node_count {
        Ok((node, i))
    } else if i >= 8 * ip.len() {
        Err(())
    } else {
        spec_walk(
            data,
            node_count,
            record_size,
            ip,
            spec_node_value(data, record_size, node, spec_bit(ip, i) as int),
            i + 1,
        )
    }
}

/// Law: whatever the walk returns, the matched prefix length lies between
/// the starting bit and the bit count of the address.
pub proof fn lemma_spec_walk_prefix_range(
    data: Seq<u8>,
    node_count: int,
    record_size: u16,
    ip: Seq<u8>,
    node: int,
    i: int,
)
    requires
        0 <= i <= 8 * ip.len(),
        spec_walk(data, node_count, record_size, ip, node, i) is Ok,
    ensures
        i <= spec_walk(data, node_count, record_size, ip, node, i)->Ok_0.1 <= 8 * ip.len(),
    decreases 8 * ip.len() - i,
{
    if node == node_count || node > node_count {
    } else if i >= 8 * ip.len() {
    } else {
        lemma_spec_walk_prefix_range(
            data,
            node_count,
            record_size,
            ip,
            spec_node_value(data, record_size, node, spec_bit(ip, i) as int),
            i + 1,
        );
    }
}

/// Following the left edge from node 0 for up to `steps` steps, stopping at
/// the first node index outside the node range: where IPv4 addresses start
/// in a dual-stack tree.
pub open spec fn spec_ipv4_chain(
    data: Seq<u8>,
    node_count: int,
    record_size: u16,
    node: int,
    steps: int,
) -> int
    decreases steps,
{
    if steps <= 0 || node >= node_count {
        node
    } else {
        spec_ipv4_chain(
            data,
            node_count,
            record_size,
            spec_node_value(data, record_size, node, 0),
            steps - 1,
        )
    }
}

/// A reader for one database image. Logically read-only: the bytes, the
/// bound metadata and the derived offsets never change after opening.
pub struct Reader {
    /// The database image.
    pub data: Vec<u8>,
    /// The metadata record bound from the database tail.
    pub metadata: Metadata,
    /// The node where an IPv4 walk starts: node 0 of an IPv4 tree, or the
    /// node 96 left edges below the root of a dual-stack tree.
    pub ipv4_start: usize,
    /// The file offset where the data section begins.
    pub pointer_base: usize,
}

impl Reader {
    /// The size of the search tree in bytes.
    pub open spec fn spec_tree_size(&self) -> int {
        self.metadata.node_count * (self.metadata.record_size as int / 4)
    }

    /// Well-formedness: the invariants `from_source` establishes and every
    /// method preserves.
    pub open spec fn wf(&self) -> bool {
        &&& (self.metadata.record_size == 24 || self.metadata.record_size == 28
            || self.metadata.record_size == 32)
        &&& (self.metadata.ip_version == 4 || self.metadata.ip_version == 6)
        &&& self.pointer_base == self.spec_tree_size() + 16
        &&& self.pointer_base <= self.data@.len()
        &&& self.ipv4_start < 0x100000000
    }

    /// The node an address walk starts at, by the bit length of the
    /// address.
    pub fn start_node(&self, length: usize) -> (n: usize)
        ensures
            n == self.spec_start_node(length as int),
    {
        if length == 128 {
            0
        } else {
            self.ipv4_start
        }
    }

    /// The node an address walk starts at.
    pub open spec fn spec_start_node(&self, length: int) -> int {
        if length == 128 {
            0
        } else {
            self.ipv4_start as int
        }
    }

    /// Reads one record of one tree node. Under the reader's invariant an
    /// in-range node always reads successfully.
    pub fn read_node(&self, node_number: usize, index: usize) -> (r: Result<
        usize,
        MaxMindDBError,
    >)
        requires
            self.wf(),
            node_number < self.metadata.node_count,
            index <= 1,
        ensures
            r matches Ok(v) && v == spec_node_value(
                self.data@,
                self.metadata.record_size,
                node_number as int,
                index as int,
            ),
            r matches Ok(v) && v < 0x100000000,
    {
        let data = &self.data;
        let ghost d = self.data@;
        let ghost count = self.metadata.node_count as int;
        proof {
            assert(pow256(3) == 16777216 && pow256(4) == 0x100000000) by {
                reveal_with_fuel(pow256, 5);
            }
        }
        match self.metadata.record_size {
            24 => {
                proof {
                    assert(node_number * 6 + 6 <= count * 6);
                }
                let offset = node_number * 6 + index * 3;
                let bytes = slice_subrange(data.as_slice(), offset, offset + 3);
                proof {
                    crate::decoder::lemma_spec_be_bound(bytes@);
                    assert(bytes@.len() == 3);
                    assert(spec_be(bytes@) < 16777216);
                }
                let v = to_usize(0, bytes);
                proof {
                    assert(v == spec_be(bytes@));
                    assert(v < 0x100000000);
                    assert(v == spec_node_value(d, self.metadata.record_size, node_number as int, index as int));
                }
                Ok(v)
            },
            28 => {
                proof {
                    assert(node_number * 7 + 7 <= count * 7);
                }
                let base = node_number * 7;
                let mut middle = self.data[base + 3];
                if index != 0 {
                    proof {
                        assert(middle & 0x0f == middle % 16) by (bit_vector);
                    }
                    middle = middle & 0x0f;
                } else {
                    proof {
                        assert((0xf0 & middle) >> 4 == middle / 16) by (bit_vector);
                    }
                    middle = (0xf0 & middle) >> 4;
                }
                let offset = base + index * 4;
                let bytes = slice_subrange(data.as_slice(), offset, offset + 3);
                proof {
                    crate::decoder::lemma_spec_be_bound(bytes@);
                    assert(bytes@.len() == 3);
                    assert(middle <= 15);
                    assert(middle * pow256(3) + spec_be(bytes@) < 0x10000000);
                }
                let v = to_usize(middle, bytes);
                proof {
                    assert(v == middle * 16777216 + spec_be(bytes@));
                    assert(v == spec_node_value(d, self.metadata.record_size, node_number as int, index as int));
                }
                Ok(v)
            },
            _ => {
                proof {
                    assert(node_number * 8 + 8 <= count * 8);
                }
                let offset = node_number * 8 + index * 4;
                let bytes = slice_subrange(data.as_slice(), offset, offset + 4);
                proof {
                    crate::decoder::lemma_spec_be_bound(bytes@);
                }
                Ok(to_usize(0, bytes))
            },
        }
    }

    /// Walks the search tree over the address bits. `Ok((0, p))` is a miss
    /// after `p` bits, `Ok((v, p))` with `v > node_count` a data pointer;
    /// an address exhausted at an inner node is a corrupt tree.
    pub fn find_address_in_tree(&self, ip_address: &Vec<u8>) -> (r: Result<
        (usize, usize),
        MaxMindDBError,
    >)
        requires
            self.wf(),
            ip_address@.len() == 4 || ip_address@.len() == 16,
        ensures
            match r {
                Ok((node, prefix)) => {
                    &&& spec_walk(
                        self.data@,
                        self.metadata.node_count as int,
                        self.metadata.record_size,
                        ip_address@,
                        self.spec_start_node(8 * ip_address@.len() as int),
                        0,
                    ) == Ok::<_, ()>((node as int, prefix as int))
                    &&& prefix <= 8 * ip_address@.len()
                    &&& node < 0x100000000
                },
                Err(e) => {
                    &&& spec_walk(
                        self.data@,
                        self.metadata.node_count as int,
                        self.metadata.record_size,
                        ip_address@,
                        self.spec_start_node(8 * ip_address@.len() as int),
                        0,
                    ) is Err
                    &&& e is InvalidDatabaseError
                    &&& e.spec_message() == "invalid node in search tree"@
                },
            },
    {
        let ghost d = self.data@;
        let ghost count = self.metadata.node_count as int;
        let ghost rs = self.metadata.record_size;
        let bit_count = ip_address.len() * 8;
        let mut node: usize = self.start_node(bit_count);
        let ghost start = node as int;
        let node_count = self.metadata.node_count;
        let mut i: usize = 0;
        while i < bit_count && node < node_count as usize
            invariant
                self.wf(),
                d == self.data@,
                count == self.metadata.node_count as int,
                rs == self.metadata.record_size,
                bit_count == 8 * ip_address@.len(),
                node_count == self.metadata.node_count,
                0 <= i <= bit_count,
                node < 0x100000000,
                spec_walk(d, count, rs, ip_address@, start, 0) == spec_walk(
                    d,
                    count,
                    rs,
                    ip_address@,
                    node as int,
                    i as int,
                ),
            decreases bit_count - i,
        {
            let b = ip_address[i / 8];
            let shift = 7 - (i % 8);
            let bit = ((b as usize) >> shift) & 1;
            proof {
                let bu: usize = b as usize;
                let sh: usize = shift;
                assert((bu >> sh) & 1 <= 1) by (bit_vector);
                assert(bit == spec_bit(ip_address@, i as int));
            }
            node = match self.read_node(node, bit) {
                Ok(v) => v,
                Err(e) => {
                    return Err(e);
                },
            };
            i = i + 1;
        }
        if node == node_count as usize {
            Ok((0, i))
        } else if node > node_count as usize {
            Ok((node, i))
        } else {
            Err(invalid("invalid node in search tree"))
        }
    }

    /// The offset of a data record relative to the start of the data
    /// section. A pointer below the section or beyond the file is the
    /// corruption this reports.
    pub fn resolve_data_pointer(&self, pointer: usize) -> (r: Result<usize, MaxMindDBError>)
        requires
            self.wf(),
            pointer < 0x100000000,
        ensures
            match r {
                Ok(off) => self.spec_resolve(pointer as int) == Some(off as int),
                Err(e) => {
                    &&& self.spec_resolve(pointer as int) is None
                    &&& e is InvalidDatabaseError
                    &&& e.spec_message() == "the MaxMind DB file's search tree is corrupt"@
                },
            },
    {
        let node_count = self.metadata.node_count as usize;
        proof {
            assert(self.metadata.node_count * (self.metadata.record_size as int / 4)
                >= self.metadata.node_count * 6) by (nonlinear_arith)
                requires
                    self.metadata.record_size == 24 || self.metadata.record_size == 28
                        || self.metadata.record_size == 32,
            ;
        }
        if pointer < node_count + 16 {
            return Err(invalid("the MaxMind DB file's search tree is corrupt"));
        }
        let resolved = pointer - node_count - 16;
        if resolved >= self.data.len() - self.pointer_base {
            return Err(invalid("the MaxMind DB file's search tree is corrupt"));
        }
        Ok(resolved)
    }

    /// The data-section offset a tree pointer resolves to, when it lies
    /// within the data section.
    pub open spec fn spec_resolve(&self, pointer: int) -> Option<int> {
        let rel = pointer - self.metadata.node_count - 16;
        if rel >= 0 && self.pointer_base + rel < self.data@.len() {
            Some(rel)
        } else {
            None
        }
    }

    /// Walks left from the root for up to 96 steps to find where IPv4
    /// addresses start in a dual-stack tree; node 0 for an IPv4 tree.
    pub fn find_ipv4_start(&self) -> (r: Result<usize, MaxMindDBError>)
        requires
            self.wf(),
        ensures
            r matches Ok(v) && v == self.spec_ipv4_start_value(),
            r matches Ok(v) && v < 0x100000000,
    {
        let ghost d = self.data@;
        let ghost count = self.metadata.node_count as int;
        let ghost rs = self.metadata.record_size;
        if self.metadata.ip_version != 6 {
            return Ok(0);
        }
        let node_count = self.metadata.node_count;
        let mut node: usize = 0;
        let mut i: usize = 0;
        while i < 96 && node < node_count as usize
            invariant
                self.wf(),
                d == self.data@,
                count == self.metadata.node_count as int,
                rs == self.metadata.record_size,
                node_count == self.metadata.node_count,
                0 <= i <= 96,
                node < 0x100000000,
                spec_ipv4_chain(d, count, rs, 0, 96) == spec_ipv4_chain(
                    d,
                    count,
                    rs,
                    node as int,
                    96 - i,
                ),
            decreases 96 - i,
        {
            node = match self.read_node(node, 0) {
                Ok(v) => v,
                Err(e) => {
                    return Err(e);
                },
            };
            i = i + 1;
        }
        Ok(node)
    }

    /// The IPv4 start node the reader's geometry dictates.
    pub open spec fn spec_ipv4_start_value(&self) -> int {
        if self.metadata.ip_version == 6 {
            spec_ipv4_chain(
                self.data@,
                self.metadata.node_count as int,
                self.metadata.record_size,
                0,
                96,
            )
        } else {
            0
        }
    }

    /// Opens a reader over a database image: locates the metadata, binds
    /// and validates it, and derives the data-section offset and the IPv4
    /// start node. Exactly the images with a well-formed metadata record of
    /// sound geometry open.
    pub fn from_source(data: Vec<u8>) -> (r: Result<Reader, MaxMindDBError>)
        ensures
            r is Ok <==> spec_openable(data@),
            match r {
                Ok(rd) => {
                    &&& rd.data@ == data@
                    &&& rd.wf()
                    &&& rd.ipv4_start == rd.spec_ipv4_start_value()
                    &&& exists|mo: int|
                        #[trigger] is_metadata_start(data@, mo) && spec_bound_metadata(data@, mo)
                            == Some(spec_metadata_view(rd.metadata))
                },
                Err(e) => {
                    &&& (e is InvalidDatabaseError || e is DecodingError)
                    &&& (forall|j: int| !marker_at(data@, j)) ==> (e is InvalidDatabaseError
                        && e.spec_message() == "Could not find MaxMind DB metadata in file."@)
                    &&& forall|mo: int|
                        #[trigger] is_metadata_start(data@, mo) ==> spec_open_fault(data@, mo, e)
                },
            },
    {
        let ghost d = data@;
        let metadata_start = match find_metadata_start(&data) {
            Ok(off) => off,
            Err(e) => {
                proof {
                    assert forall|mo: int| !is_metadata_start(d, mo) by {
                        assert(!marker_at(d, mo - 14));
                    }
                }
                return Err(e);
            },
        };
        let ghost mo = metadata_start as int;
        proof {
            assert(marker_at(d, mo - 14));
            assert forall|mo2: int| #[trigger] is_metadata_start(d, mo2) implies mo2 == mo by {
                crate::locator::lemma_metadata_start_unique(d, mo2, mo);
            }
        }
        let decoded = decode_at(&data, metadata_start, metadata_start, DECODE_DEPTH_LIMIT);
        let metadata_value = match decoded {
            Ok((v, _)) => v,
            Err(e) => {
                proof {
                    lemma_not_openable(d, mo);
                }
                return Err(e);
            },
        };
        let metadata = match crate::metadata::metadata_from_value(&metadata_value) {
            Ok(m) => m,
            Err(e) => {
                proof {
                    lemma_not_openable(d, mo);
                }
                return Err(e);
            },
        };
        if !(metadata.record_size == 24 || metadata.record_size == 28 || metadata.record_size
            == 32) {
            proof {
                lemma_not_openable(d, mo);
            }
            return Err(crate::decoder::invalid_num("unknown record size: ", metadata.record_size as u64));
        }
        if !(metadata.ip_version == 4 || metadata.ip_version == 6) {
            proof {
                lemma_not_openable(d, mo);
            }
            return Err(crate::decoder::invalid_num("unknown IP version: ", metadata.ip_version as u64));
        }
        let record_quarter: u64 = (metadata.record_size / 4) as u64;
        proof {
            assert(metadata.node_count as u64 * record_quarter <= metadata.node_count as u64 * 8)
                by (nonlinear_arith)
                requires
                    record_quarter <= 8,
            ;
        }
        let tree_size: u64 = metadata.node_count as u64 * record_quarter;
        if tree_size + 16 > data.len() as u64 {
            proof {
                lemma_not_openable(d, mo);
            }
            return Err(invalid("invalid node count in search tree"));
        }
        let pointer_base: usize = tree_size as usize + 16;
        let reader = Reader { data, metadata, ipv4_start: 0, pointer_base };
        let ipv4_start = match reader.find_ipv4_start() {
            Ok(v) => v,
            Err(e) => {
                return Err(e);
            },
        };
        let reader = Reader { ipv4_start, ..reader };
        proof {
            assert(spec_bound_metadata(d, mo) == Some(spec_metadata_view(reader.metadata)));
            assert(spec_openable(d));
        }
        Ok(reader)
    }

    /// Looks an address up and reports the record together with the length
    /// of the matched network prefix. The address is given as network-order
    /// octets, 4 for IPv4 or 16 for IPv6.
    pub fn lookup_prefix(&self, address: &Vec<u8>) -> (r: Result<(Value, usize), MaxMindDBError>)
        requires
            self.wf(),
            address@.len() == 4 || address@.len() == 16,
        ensures
            match r {
                Ok((v, prefix_len)) => {
                    &&& spec_lookup(*self, address@) == Ok::<_, SpecLookupErr>((
                        v@,
                        prefix_len as int,
                    ))
                    &&& prefix_len <= 8 * address@.len()
                },
                Err(e) => match spec_lookup(*self, address@) {
                    Err(SpecLookupErr::NotFound) => e is AddressNotFoundError
                        && e.spec_message() == "Address not found in database"@,
                    Err(SpecLookupErr::InvalidNetwork) => e is InvalidNetworkError
                        && e.spec_message() == "IPv6 query against IPv4 database"@,
                    Err(SpecLookupErr::Corrupt(m)) => e is InvalidDatabaseError
                        && e.spec_message() == m,
                    Ok(_) => false,
                },
            },
    {
        if address.len() == 16 && self.metadata.ip_version == 4 {
            return Err(
                MaxMindDBError::InvalidNetworkError("IPv6 query against IPv4 database".to_owned()),
            );
        }
        let (pointer, prefix_len) = match self.find_address_in_tree(address) {
            Ok(x) => x,
            Err(e) => {
                return Err(e);
            },
        };
        if pointer == 0 {
            return Err(
                MaxMindDBError::AddressNotFoundError("Address not found in database".to_owned()),
            );
        }
        let rel = match self.resolve_data_pointer(pointer) {
            Ok(x) => x,
            Err(e) => {
                return Err(e);
            },
        };
        proof {
            assert(self.data.len() == self.data@.len());
        }
        match decode_at(&self.data, self.pointer_base, self.pointer_base + rel, DECODE_DEPTH_LIMIT) {
            Ok((v, _)) => Ok((v, prefix_len)),
            Err(e) => Err(e),
        }
    }

    /// Looks an address up and reports the record alone.
    pub fn lookup(&self, address: &Vec<u8>) -> (r: Result<Value, MaxMindDBError>)
        requires
            self.wf(),
            address@.len() == 4 || address@.len() == 16,
        ensures
            match r {
                Ok(v) => spec_lookup(*self, address@) matches Ok((sv, _)) && sv == v@,
                Err(e) => match spec_lookup(*self, address@) {
                    Err(SpecLookupErr::NotFound) => e is AddressNotFoundError
                        && e.spec_message() == "Address not found in database"@,
                    Err(SpecLookupErr::InvalidNetwork) => e is InvalidNetworkError
                        && e.spec_message() == "IPv6 query against IPv4 database"@,
                    Err(SpecLookupErr::Corrupt(m)) => e is InvalidDatabaseError
                        && e.spec_message() == m,
                    Ok(_) => false,
                },
            },
    {
        match self.lookup_prefix(address) {
            Ok((v, _)) => Ok(v),
            Err(e) => Err(e),
        }
    }
}

/// The metadata record bound at metadata offset `mo`, when the value there
/// decodes and binds.
pub open spec fn spec_bound_metadata(data: Seq<u8>, mo: int) -> Option<
    (u16, u16, u64, Seq<char>, Seq<(Seq<char>, Seq<char>)>, u16, Seq<Seq<char>>, u32, u16),
> {
    match spec_decode(data, mo, mo, DECODE_DEPTH_LIMIT as nat) {
        Ok((v, _)) => spec_metadata_of(v),
        Err(_) => None,
    }
}

/// The geometry invariants an accepted database must satisfy.
pub open spec fn spec_geometry_ok(len: int, ip_version: u16, node_count: u32, record_size: u16) -> bool {
    &&& (record_size == 24 || record_size == 28 || record_size == 32)
    &&& (ip_version == 4 || ip_version == 6)
    &&& node_count * (record_size as int / 4) + 16 <= len
}

/// The message construction reports when the bound metadata's geometry is
/// rejected; the faults are checked in this order: record size, IP
/// version, tree fit.
pub open spec fn spec_geometry_fault(
    len: int,
    ip_version: u16,
    node_count: u32,
    record_size: u16,
) -> Seq<char> {
    if !(record_size == 24 || record_size == 28 || record_size == 32) {
        "unknown record size: "@ + spec_decimal(record_size as nat)
    } else if !(ip_version == 4 || ip_version == 6) {
        "unknown IP version: "@ + spec_decimal(ip_version as nat)
    } else {
        "invalid node count in search tree"@
    }
}

/// What error an image that does not open owes, by cause, at its metadata
/// offset `mo`: the decoder's own corruption report, the binder's decoding
/// error, or the geometry fault.
pub open spec fn spec_open_fault(data: Seq<u8>, mo: int, e: MaxMindDBError) -> bool {
    match spec_decode(data, mo, mo, DECODE_DEPTH_LIMIT as nat) {
        Err(m) => e is InvalidDatabaseError && e.spec_message() == m,
        Ok((v, _)) => match spec_metadata_of(v) {
            None => e is DecodingError && e.spec_message() == "Couldn't decode Metadata"@,
            Some(t) => e is InvalidDatabaseError && e.spec_message() == spec_geometry_fault(
                data.len() as int,
                t.5,
                t.7,
                t.8,
            ),
        },
    }
}

/// A database image opens exactly when a metadata marker occurs, the value
/// just past its last occurrence binds to a metadata record, and that
/// record's geometry fits the image.
pub open spec fn spec_openable(data: Seq<u8>) -> bool {
    exists|mo: int|
        {
            &&& #[trigger] is_metadata_start(data, mo)
            &&& spec_bound_metadata(data, mo) matches Some(t) && spec_geometry_ok(
                data.len() as int,
                t.5,
                t.7,
                t.8,
            )
        }
}

/// When opening fails at the unique metadata offset `mo`, no offset opens.
proof fn lemma_not_openable(data: Seq<u8>, mo: int)
    requires
        is_metadata_start(data, mo),
        !(spec_bound_metadata(data, mo) matches Some(t) && spec_geometry_ok(
            data.len() as int,
            t.5,
            t.7,
            t.8,
        )),
    ensures
        !spec_openable(data),
{
    assert forall|mo2: int| is_metadata_start(data, mo2) implies !(spec_bound_metadata(data, mo2)
        matches Some(t) && spec_geometry_ok(data.len() as int, t.5, t.7, t.8)) by {
        crate::locator::lemma_metadata_start_unique(data, mo2, mo);
    }
}

/// Law: lookups are deterministic. The contracts of `lookup` and
/// `lookup_prefix` pin their outcome to `spec_lookup` of the reader and the
/// address alone, so two lookups of the same address on the same reader
/// agree in record, prefix length and error kind.
pub proof fn lemma_lookup_deterministic(
    rd: Reader,
    ip: Seq<u8>,
    r1: Result<(SpecVal, int), SpecLookupErr>,
    r2: Result<(SpecVal, int), SpecLookupErr>,
)
    requires
        r1 == spec_lookup(rd, ip),
        r2 == spec_lookup(rd, ip),
    ensures
        r1 == r2,
{
}

/// What a lookup owes: the record and matched prefix for the address, a
/// not-found for a null record, an invalid-network for a 16-byte query
/// against an IPv4 database, and a corruption report otherwise.
pub open spec fn spec_lookup(rd: Reader, ip: Seq<u8>) -> Result<(SpecVal, int), SpecLookupErr> {
    if ip.len() == 16 && rd.metadata.ip_version == 4 {
        Err(SpecLookupErr::InvalidNetwork)
    } else {
        match spec_walk(
            rd.data@,
            rd.metadata.node_count as int,
            rd.metadata.record_size,
            ip,
            rd.spec_start_node(8 * ip.len() as int),
            0,
        ) {
            Ok((ptr, prefix)) => {
                if ptr == 0 {
                    Err(SpecLookupErr::NotFound)
                } else {
                    match rd.spec_resolve(ptr) {
                        Some(rel) => match spec_decode(
                            rd.data@,
                            rd.pointer_base as int,
                            rd.pointer_base + rel,
                            DECODE_DEPTH_LIMIT as nat,
                        ) {
                            Ok((v, _)) => Ok((v, prefix)),
                            Err(m) => Err(SpecLookupErr::Corrupt(m)),
                        },
                        None => Err(
                            SpecLookupErr::Corrupt("the MaxMind DB file's search tree is corrupt"@),
                        ),
                    }
                }
            },
            Err(_) => Err(SpecLookupErr::Corrupt("invalid node in search tree"@)),
        }
    }
}

} // verus!
