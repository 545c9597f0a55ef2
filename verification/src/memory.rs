use vstd::prelude::*;

use crate::error::MemoryError;

pub mod mmu;
pub mod ram;
pub mod rom;

verus! {

// Storage devices expose a single-byte primitive; every wider accessor is a
// generic utility over that primitive, composing consecutive single-byte
// accesses in little-endian order.  Address arithmetic is checked: running
// past the top of the 64-bit address space yields `MemoryOverflow`.  A
// multi-byte write is not atomic: it advances byte by byte, and a failure
// partway through leaves the already-written prefix committed.

/// 256 to the power `count`: the number of values `count` bytes can hold.
pub open spec fn pow256(count: nat) -> nat
    decreases count,
{
    if count == 0 {
        1
    } else {
        256 * pow256((count - 1) as nat)
    }
}

/// The value of a byte sequence read as a little-endian integer.
pub open spec fn le_value(bytes: Seq<u8>) -> nat
    decreases bytes.len(),
{
    if bytes.len() == 0 {
        0
    } else {
        (bytes[0] + 256 * le_value(bytes.drop_first())) as nat
    }
}

/// The `count` little-endian bytes of a value.
pub open spec fn le_bytes(value: nat, count: nat) -> Seq<u8>
    decreases count,
{
    if count == 0 {
        Seq::empty()
    } else {
        seq![(value % 256) as u8] + le_bytes(value / 256, (count - 1) as nat)
    }
}

pub proof fn lemma_pow256_positive(count: nat)
    ensures
        pow256(count) >= 1,
    decreases count,
{
    if count > 0 {
        lemma_pow256_positive((count - 1) as nat);
    }
}

pub proof fn lemma_pow256_monotone(smaller: nat, larger: nat)
    requires
        smaller <= larger,
    ensures
        pow256(smaller) <= pow256(larger),
    decreases larger,
{
    if smaller < larger {
        lemma_pow256_monotone(smaller, (larger - 1) as nat);
        lemma_pow256_positive((larger - 1) as nat);
    }
}

/// The number of values of 16 bytes, spelled out: 2 to the 128th power.
pub proof fn lemma_pow256_16()
    ensures
        pow256(2) == 0x1_0000,
        pow256(4) == 0x1_0000_0000,
        pow256(8) == 0x1_0000_0000_0000_0000,
        pow256(16) == 0x1_0000_0000_0000_0000_0000_0000_0000_0000,
{
    assert(pow256(0) == 1);
    assert(pow256(1) == 256);
    assert(pow256(2) == 0x1_0000);
    assert(pow256(3) == 0x100_0000);
    assert(pow256(4) == 0x1_0000_0000);
    assert(pow256(5) == 0x100_0000_0000);
    assert(pow256(6) == 0x1_0000_0000_0000);
    assert(pow256(7) == 0x100_0000_0000_0000);
    assert(pow256(8) == 0x1_0000_0000_0000_0000);
    assert(pow256(9) == 0x100_0000_0000_0000_0000);
    assert(pow256(10) == 0x1_0000_0000_0000_0000_0000);
    assert(pow256(11) == 0x100_0000_0000_0000_0000_0000);
    assert(pow256(12) == 0x1_0000_0000_0000_0000_0000_0000);
    assert(pow256(13) == 0x100_0000_0000_0000_0000_0000_0000);
    assert(pow256(14) == 0x1_0000_0000_0000_0000_0000_0000_0000);
    assert(pow256(15) == 0x100_0000_0000_0000_0000_0000_0000_0000);
    assert(pow256(16) == 0x1_0000_0000_0000_0000_0000_0000_0000_0000);
}

/// A little-endian value is bounded by the count of its bytes.
pub proof fn lemma_le_value_bound(bytes: Seq<u8>)
    ensures
        le_value(bytes) < pow256(bytes.len()),
    decreases bytes.len(),
{
    if bytes.len() > 0 {
        lemma_le_value_bound(bytes.drop_first());
    }
}

/// Reading bytes back as a value undoes splitting a value into bytes.
pub proof fn lemma_le_round_trip(value: nat, count: nat)
    requires
        value < pow256(count),
    ensures
        le_value(le_bytes(value, count)) == value,
    decreases count,
{
    if count > 0 {
        let rest = le_bytes(value / 256, (count - 1) as nat);
        assert(le_bytes(value, count).drop_first() =~= rest);
        assert(value / 256 < pow256((count - 1) as nat)) by {
            lemma_pow256_positive((count - 1) as nat);
        };
        lemma_le_round_trip(value / 256, (count - 1) as nat);
        assert(value % 256 + 256 * (value / 256) == value);
    }
}

/// A register-width value survives a store and a load: reading back the
/// sixteen bytes a 128-bit store commits yields the stored value.
pub proof fn lemma_store_load_round_trip(value: u128)
    ensures
        le_value(le_bytes(value as nat, 16)) == value,
{
    lemma_pow256_16();
    lemma_le_round_trip(value as nat, 16);
}

/// How a device answers a one-byte read at each address.
pub trait MemoryRead {
    /// The outcome of reading the byte at `address`: the byte stored there,
    /// or the failure the device reports for that address.
    spec fn read_spec(&self, address: u64) -> Result<u8, MemoryError>;

    /// Read the single byte at `address`.
    fn read_u8(&self, address: u64) -> (r: Result<u8, MemoryError>)
        ensures
            r == self.read_spec(address),
    ;
}

/// How a device answers a one-byte write at each address.  Whether a write
/// is accepted depends on the address alone, never on the value written,
/// and is not changed by other writes.
pub trait MemoryWrite: MemoryRead {
    /// Whether a one-byte write at `address` succeeds, and with which
    /// failure it is otherwise refused.
    spec fn write_result_spec(&self, address: u64) -> Result<(), MemoryError>;

    /// Write one byte at `address`.  On failure the device is unchanged.
    fn write_u8(&mut self, address: u64, value: u8) -> (r: Result<(), MemoryError>)
        ensures
            r == old(self).write_result_spec(address),
            forall|a: u64| #[trigger]
                final(self).write_result_spec(a) == old(self).write_result_spec(a),
            forall|a: u64|
                a != address ==> #[trigger] final(self).read_spec(a) == old(self).read_spec(a),
            r is Ok ==> final(self).read_spec(address) == Ok::<u8, MemoryError>(value),
            r is Err ==> final(self).read_spec(address) == old(self).read_spec(address),
    ;
}

/// The outcome of reading `count` consecutive bytes from `address` upward:
/// the bytes in address order, or the first failure met.
pub open spec fn read_range_spec<M: MemoryRead>(memory: M, address: int, count: nat) -> Result<
    Seq<u8>,
    MemoryError,
>
    decreases count,
{
    if count == 0 {
        Ok(Seq::empty())
    } else if address > u64::MAX {
        Err(MemoryError::MemoryOverflow)
    } else {
        match memory.read_spec(address as u64) {
            Err(e) => Err(e),
            Ok(byte) => match read_range_spec(memory, address + 1, (count - 1) as nat) {
                Err(e) => Err(e),
                Ok(rest) => Ok(seq![byte] + rest),
            },
        }
    }
}

/// A range read is a prefix read followed by a read of the rest.
proof fn lemma_read_range_split<M: MemoryRead>(memory: M, address: int, prefix: nat, count: nat)
    requires
        prefix <= count,
    ensures
        read_range_spec(memory, address, count) == (match read_range_spec(
            memory,
            address,
            prefix,
        ) {
            Err(e) => Err::<Seq<u8>, MemoryError>(e),
            Ok(first) => match read_range_spec(memory, address + prefix, (count - prefix) as nat) {
                Err(e) => Err::<Seq<u8>, MemoryError>(e),
                Ok(rest) => Ok::<Seq<u8>, MemoryError>(first + rest),
            },
        }),
    decreases prefix,
{
    if prefix == 0 {
        match read_range_spec(memory, address, count) {
            Ok(whole) => {
                assert(Seq::<u8>::empty() + whole =~= whole);
            },
            Err(_) => {},
        }
    } else {
        if address <= u64::MAX {
            match memory.read_spec(address as u64) {
                Err(_) => {},
                Ok(byte) => {
                    lemma_read_range_split(
                        memory,
                        address + 1,
                        (prefix - 1) as nat,
                        (count - 1) as nat,
                    );
                    match read_range_spec(memory, address + 1, (prefix - 1) as nat) {
                        Err(_) => {},
                        Ok(first) => {
                            match read_range_spec(memory, address + prefix, (count - prefix) as nat) {
                                Err(_) => {},
                                Ok(rest) => {
                                    assert(seq![byte] + (first + rest) =~= (seq![byte] + first)
                                        + rest);
                                },
                            }
                        },
                    }
                },
            }
        }
    }
}

/// A successful range read yields exactly as many bytes as were asked for.
pub proof fn lemma_read_range_len<M: MemoryRead>(memory: M, address: int, count: nat)
    ensures
        read_range_spec(memory, address, count) matches Ok(bytes) ==> bytes.len() == count,
    decreases count,
{
    if count > 0 && address <= u64::MAX {
        lemma_read_range_len(memory, address + 1, (count - 1) as nat);
    }
}

/// Read `count` consecutive bytes starting at `address`, in address order.
pub fn read_bytes<M: MemoryRead>(memory: &M, address: u64, count: usize) -> (r: Result<
    Vec<u8>,
    MemoryError,
>)
    ensures
        ({
            let outcome = read_range_spec(*memory, address as int, count as nat);
            match r {
                Ok(v) => outcome == Ok::<Seq<u8>, MemoryError>(v@),
                Err(e) => outcome == Err::<Seq<u8>, MemoryError>(e),
            }
        }),
{
    let mut bytes: Vec<u8> = Vec::new();
    let mut index: usize = 0;
    while index < count
        invariant
            index <= count,
            bytes@.len() == index,
            read_range_spec(*memory, address as int, index as nat) == Ok::<Seq<u8>, MemoryError>(
                bytes@,
            ),
        decreases count - index,
    {
        proof {
            lemma_read_range_split(*memory, address as int, index as nat, count as nat);
        }
        match address.checked_add(index as u64) {
            None => {
                proof {
                    assert(read_range_spec(*memory, address as int + index, (count - index) as nat)
                        == Err::<Seq<u8>, MemoryError>(MemoryError::MemoryOverflow));
                }
                return Err(MemoryError::MemoryOverflow);
            },
            Some(at) => {
                match memory.read_u8(at) {
                    Err(e) => {
                        proof {
                            assert(read_range_spec(
                                *memory,
                                address as int + index,
                                (count - index) as nat,
                            ) == Err::<Seq<u8>, MemoryError>(e));
                        }
                        return Err(e);
                    },
                    Ok(byte) => {
                        proof {
                            lemma_read_range_split(
                                *memory,
                                address as int,
                                index as nat,
                                (index + 1) as nat,
                            );
                            assert(read_range_spec(*memory, address as int + index + 1, 0) == Ok::<
                                Seq<u8>,
                                MemoryError,
                            >(Seq::empty()));
                            assert(read_range_spec(*memory, address as int + index, 1) == Ok::<
                                Seq<u8>,
                                MemoryError,
                            >(seq![byte]));
                            assert(bytes@ + seq![byte] =~= bytes@.push(byte));
                        }
                        bytes.push(byte);
                    },
                }
            },
        }
        index = index + 1;
    }
    Ok(bytes)
}

/// Combine up to 16 bytes into the value they hold in little-endian order.
fn combine_le(bytes: &Vec<u8>) -> (r: u128)
    requires
        bytes@.len() <= 16,
    ensures
        r as nat == le_value(bytes@),
{
    proof {
        lemma_pow256_16();
    }
    let mut value: u128 = 0;
    let mut index: usize = bytes.len();
    while index > 0
        invariant
            index <= bytes@.len() <= 16,
            value as nat == le_value(bytes@.skip(index as int)),
            value < pow256((bytes@.len() - index) as nat),
            pow256(16) == 0x1_0000_0000_0000_0000_0000_0000_0000_0000,
        decreases index,
    {
        let byte = bytes[index - 1];
        proof {
            let tail = bytes@.skip(index as int);
            let whole = bytes@.skip(index - 1);
            assert(whole.drop_first() =~= tail);
            assert(le_value(whole) == byte + 256 * le_value(tail));
            lemma_pow256_monotone((bytes@.len() - index + 1) as nat, 16);
        }
        value = value * 256 + (byte as u128);
        index = index - 1;
    }
    assert(bytes@.skip(0) =~= bytes@);
    value
}

/// Split a value into its `count` little-endian bytes, lowest first.
fn split_le(value: u128, count: usize) -> (r: Vec<u8>)
    ensures
        r@ == le_bytes(value as nat, count as nat),
        r@.len() == count,
{
    let mut bytes: Vec<u8> = Vec::new();
    let mut rest: u128 = value;
    let mut index: usize = 0;
    while index < count
        invariant
            index <= count,
            bytes@.len() == index,
            le_bytes(value as nat, count as nat) == bytes@ + le_bytes(
                rest as nat,
                (count - index) as nat,
            ),
        decreases count - index,
    {
        let byte: u8 = (rest % 256) as u8;
        proof {
            let remaining = le_bytes(rest as nat, (count - index) as nat);
            assert(remaining == seq![byte] + le_bytes(
                rest as nat / 256,
                (count - index - 1) as nat,
            ));
            assert(bytes@ + remaining =~= bytes@.push(byte) + le_bytes(
                rest as nat / 256,
                (count - index - 1) as nat,
            ));
            assert((rest / 256) as nat == rest as nat / 256);
        }
        bytes.push(byte);
        rest = rest / 256;
        index = index + 1;
    }
    proof {
        assert(le_bytes(rest as nat, 0) =~= Seq::<u8>::empty());
        assert(bytes@ + Seq::<u8>::empty() =~= bytes@);
    }
    bytes
}

/// The final outcome of writing `count` consecutive bytes from `address`
/// upward: success, or the failure that stops the write.  Depends only on
/// which addresses accept writes, so it is fixed before the write starts.
pub open spec fn write_span_result<M: MemoryWrite>(memory: M, address: int, count: nat) -> Result<
    (),
    MemoryError,
>
    decreases count,
{
    if count == 0 {
        Ok(())
    } else if address > u64::MAX {
        Err(MemoryError::MemoryOverflow)
    } else {
        match memory.write_result_spec(address as u64) {
            Err(e) => Err(e),
            Ok(accepted) => write_span_result(memory, address + 1, (count - 1) as nat),
        }
    }
}

/// How many bytes of a `count`-byte write from `address` upward are
/// committed before the write finishes or stops: all of them on success,
/// the prefix before the failing address otherwise.
pub open spec fn write_span_count<M: MemoryWrite>(memory: M, address: int, count: nat) -> nat
    decreases count,
{
    if count == 0 {
        0
    } else if address > u64::MAX {
        0
    } else {
        match memory.write_result_spec(address as u64) {
            Err(e) => 0,
            Ok(accepted) => 1 + write_span_count(memory, address + 1, (count - 1) as nat),
        }
    }
}

/// The span outcome depends on the device only through which addresses
/// accept writes.
proof fn lemma_write_span_congruence<M: MemoryWrite>(m1: M, m2: M, address: int, count: nat)
    requires
        forall|a: u64| #[trigger] m1.write_result_spec(a) == m2.write_result_spec(a),
    ensures
        write_span_result(m1, address, count) == write_span_result(m2, address, count),
        write_span_count(m1, address, count) == write_span_count(m2, address, count),
    decreases count,
{
    if count > 0 && address <= u64::MAX {
        lemma_write_span_congruence(m1, m2, address + 1, (count - 1) as nat);
    }
}

/// A span write is a prefix write followed by a write of the rest.
proof fn lemma_write_span_split<M: MemoryWrite>(memory: M, address: int, prefix: nat, count: nat)
    requires
        prefix <= count,
        write_span_result(memory, address, prefix) is Ok,
    ensures
        write_span_result(memory, address, count) == write_span_result(
            memory,
            address + prefix,
            (count - prefix) as nat,
        ),
        write_span_count(memory, address, count) == prefix + write_span_count(
            memory,
            address + prefix,
            (count - prefix) as nat,
        ),
    decreases prefix,
{
    if prefix > 0 {
        lemma_write_span_split(memory, address + 1, (prefix - 1) as nat, (count - 1) as nat);
    }
}

/// The device answers every read and write exactly as before.
pub open spec fn memory_unchanged<M: MemoryWrite>(pre: M, post: M) -> bool {
    &&& forall|a: u64| #[trigger] post.write_result_spec(a) == pre.write_result_spec(a)
    &&& forall|a: u64| #[trigger] post.read_spec(a) == pre.read_spec(a)
}

/// What one committed write leaves behind: the byte readable at its
/// address, every other address untouched, and which addresses accept
/// writes as before.
pub open spec fn byte_written<M: MemoryWrite>(pre: M, post: M, address: u64, value: u8) -> bool {
    &&& forall|a: u64| #[trigger] post.write_result_spec(a) == pre.write_result_spec(a)
    &&& forall|a: u64| a != address ==> #[trigger] post.read_spec(a) == pre.read_spec(a)
    &&& post.read_spec(address) == Ok::<u8, MemoryError>(value)
}

/// What a completed multi-byte write leaves behind: the committed prefix
/// holds the given bytes, every other address is untouched, and which
/// addresses accept writes is as before.
pub open spec fn bytes_written<M: MemoryWrite>(
    pre: M,
    post: M,
    address: u64,
    bytes: Seq<u8>,
) -> bool {
    let committed = write_span_count(pre, address as int, bytes.len());
    &&& forall|a: u64| #[trigger] post.write_result_spec(a) == pre.write_result_spec(a)
    &&& forall|a: u64|
        address <= a && a - address < committed ==> #[trigger] post.read_spec(a) == Ok::<
            u8,
            MemoryError,
        >(bytes[a - address])
    &&& forall|a: u64|
        !(address <= a && a - address < committed) ==> #[trigger] post.read_spec(a)
            == pre.read_spec(a)
}

/// Write the given bytes at consecutive addresses from `address` upward.
/// The write is not atomic: bytes are committed one by one, and a failure
/// partway through leaves the already-written prefix in place.
pub fn write_bytes<M: MemoryWrite>(memory: &mut M, address: u64, bytes: &Vec<u8>) -> (r: Result<
    (),
    MemoryError,
>)
    ensures
        r == write_span_result(*old(memory), address as int, bytes@.len()),
        bytes_written(*old(memory), *final(memory), address, bytes@),
{
    let count = bytes.len();
    let mut index: usize = 0;
    while index < count
        invariant
            index <= count,
            count == bytes@.len(),
            write_span_result(*old(memory), address as int, index as nat) == Ok::<(), MemoryError>(
                (),
            ),
            write_span_count(*old(memory), address as int, index as nat) == index,
            forall|a: u64| #[trigger]
                memory.write_result_spec(a) == old(memory).write_result_spec(a),
            forall|a: u64|
                address <= a && a - address < index ==> #[trigger] memory.read_spec(a) == Ok::<
                    u8,
                    MemoryError,
                >(bytes@[a - address]),
            forall|a: u64|
                !(address <= a && a - address < index) ==> #[trigger] memory.read_spec(a) == old(
                    memory,
                ).read_spec(a),
        decreases count - index,
    {
        proof {
            lemma_write_span_split(*old(memory), address as int, index as nat, count as nat);
            lemma_write_span_congruence(
                *old(memory),
                *memory,
                address as int + index,
                (count - index) as nat,
            );
        }
        match address.checked_add(index as u64) {
            None => {
                proof {
                    assert(write_span_result(
                        *old(memory),
                        address as int + index,
                        (count - index) as nat,
                    ) == Err::<(), MemoryError>(MemoryError::MemoryOverflow));
                    assert(write_span_count(
                        *old(memory),
                        address as int + index,
                        (count - index) as nat,
                    ) == 0);
                }
                return Err(MemoryError::MemoryOverflow);
            },
            Some(at) => {
                let outcome = memory.write_u8(at, bytes[index]);
                match outcome {
                    Err(e) => {
                        proof {
                            assert(write_span_result(
                                *old(memory),
                                address as int + index,
                                (count - index) as nat,
                            ) == Err::<(), MemoryError>(e));
                            assert(write_span_count(
                                *old(memory),
                                address as int + index,
                                (count - index) as nat,
                            ) == 0);
                        }
                        return Err(e);
                    },
                    Ok(accepted) => {
                        proof {
                            lemma_write_span_split(
                                *old(memory),
                                address as int,
                                index as nat,
                                (index + 1) as nat,
                            );
                            assert(write_span_result(*old(memory), address as int + index + 1, 0)
                                == Ok::<(), MemoryError>(()));
                            assert(write_span_result(*old(memory), address as int + index, 1)
                                == Ok::<(), MemoryError>(()));
                            assert(write_span_count(*old(memory), address as int + index + 1, 0)
                                == 0);
                            assert(write_span_count(*old(memory), address as int + index, 1) == 1);
                        }
                    },
                }
            },
        }
        index = index + 1;
    }
    proof {
        lemma_write_span_split(*old(memory), address as int, count as nat, count as nat);
    }
    Ok(())
}

/// Read the 16-bit little-endian value at `address`.
pub fn read_u16<M: MemoryRead>(memory: &M, address: u64) -> (r: Result<u16, MemoryError>)
    ensures
        ({
            let outcome = read_range_spec(*memory, address as int, 2);
            match r {
                Ok(v) => outcome is Ok && v as nat == le_value(outcome->Ok_0),
                Err(e) => outcome == Err::<Seq<u8>, MemoryError>(e),
            }
        }),
{
    match read_bytes(memory, address, 2) {
        Err(e) => Err(e),
        Ok(bytes) => {
            proof {
                lemma_read_range_len(*memory, address as int, 2);
                lemma_le_value_bound(bytes@);
                lemma_pow256_16();
            }
            let value = combine_le(&bytes);
            Ok(value as u16)
        },
    }
}

/// Read the 32-bit little-endian value at `address`.
pub fn read_u32<M: MemoryRead>(memory: &M, address: u64) -> (r: Result<u32, MemoryError>)
    ensures
        ({
            let outcome = read_range_spec(*memory, address as int, 4);
            match r {
                Ok(v) => outcome is Ok && v as nat == le_value(outcome->Ok_0),
                Err(e) => outcome == Err::<Seq<u8>, MemoryError>(e),
            }
        }),
{
    match read_bytes(memory, address, 4) {
        Err(e) => Err(e),
        Ok(bytes) => {
            proof {
                lemma_read_range_len(*memory, address as int, 4);
                lemma_le_value_bound(bytes@);
                lemma_pow256_16();
            }
            let value = combine_le(&bytes);
            Ok(value as u32)
        },
    }
}

/// Read the 64-bit little-endian value at `address`.
pub fn read_u64<M: MemoryRead>(memory: &M, address: u64) -> (r: Result<u64, MemoryError>)
    ensures
        ({
            let outcome = read_range_spec(*memory, address as int, 8);
            match r {
                Ok(v) => outcome is Ok && v as nat == le_value(outcome->Ok_0),
                Err(e) => outcome == Err::<Seq<u8>, MemoryError>(e),
            }
        }),
{
    match read_bytes(memory, address, 8) {
        Err(e) => Err(e),
        Ok(bytes) => {
            proof {
                lemma_read_range_len(*memory, address as int, 8);
                lemma_le_value_bound(bytes@);
                lemma_pow256_16();
            }
            let value = combine_le(&bytes);
            Ok(value as u64)
        },
    }
}

/// Read the 128-bit little-endian value at `address`.
pub fn read_u128<M: MemoryRead>(memory: &M, address: u64) -> (r: Result<u128, MemoryError>)
    ensures
        ({
            let outcome = read_range_spec(*memory, address as int, 16);
            match r {
                Ok(v) => outcome is Ok && v as nat == le_value(outcome->Ok_0),
                Err(e) => outcome == Err::<Seq<u8>, MemoryError>(e),
            }
        }),
{
    match read_bytes(memory, address, 16) {
        Err(e) => Err(e),
        Ok(bytes) => {
            proof {
                lemma_read_range_len(*memory, address as int, 16);
            }
            Ok(combine_le(&bytes))
        },
    }
}

/// Write `value` at `address` as 2 little-endian bytes.
pub fn write_u16<M: MemoryWrite>(memory: &mut M, address: u64, value: u16) -> (r: Result<
    (),
    MemoryError,
>)
    ensures
        r == write_span_result(*old(memory), address as int, 2),
        bytes_written(*old(memory), *final(memory), address, le_bytes(value as nat, 2)),
{
    let bytes = split_le(value as u128, 2);
    write_bytes(memory, address, &bytes)
}

/// Write `value` at `address` as 4 little-endian bytes.
pub fn write_u32<M: MemoryWrite>(memory: &mut M, address: u64, value: u32) -> (r: Result<
    (),
    MemoryError,
>)
    ensures
        r == write_span_result(*old(memory), address as int, 4),
        bytes_written(*old(memory), *final(memory), address, le_bytes(value as nat, 4)),
{
    let bytes = split_le(value as u128, 4);
    write_bytes(memory, address, &bytes)
}

/// Write `value` at `address` as 8 little-endian bytes.
pub fn write_u64<M: MemoryWrite>(memory: &mut M, address: u64, value: u64) -> (r: Result<
    (),
    MemoryError,
>)
    ensures
        r == write_span_result(*old(memory), address as int, 8),
        bytes_written(*old(memory), *final(memory), address, le_bytes(value as nat, 8)),
{
    let bytes = split_le(value as u128, 8);
    write_bytes(memory, address, &bytes)
}

/// Write `value` at `address` as 16 little-endian bytes.
pub fn write_u128<M: MemoryWrite>(memory: &mut M, address: u64, value: u128) -> (r: Result<
    (),
    MemoryError,
>)
    ensures
        r == write_span_result(*old(memory), address as int, 16),
        bytes_written(*old(memory), *final(memory), address, le_bytes(value as nat, 16)),
{
    let bytes = split_le(value, 16);
    write_bytes(memory, address, &bytes)
}

} // verus!
