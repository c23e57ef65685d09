//! The bit layout of an identifier.
//!
//! From the most to the least significant bit an identifier holds the
//! timestamp, the data-center id (5 bits), the worker id (5 bits) and the
//! sequence number (12 bits).

use vstd::prelude::*;

verus! {

/// Number of bits of the sequence field, the lowest of the identifier.
pub const SEQUENCE_BITS: u32 = 12;

/// Number of bits of the worker field.
pub const WORKER_ID_BITS: u32 = 5;

/// Number of bits of the data-center field.
pub const DATA_CENTER_ID_BITS: u32 = 5;

/// Position of the lowest bit of the worker field.
pub const WORKER_ID_SHIFT: u32 = SEQUENCE_BITS;

/// Position of the lowest bit of the data-center field.
pub const DATA_CENTER_ID_SHIFT: u32 = SEQUENCE_BITS + WORKER_ID_BITS;

/// Position of the lowest bit of the timestamp.
pub const TIMESTAMP_SHIFT: u32 = SEQUENCE_BITS + WORKER_ID_BITS + DATA_CENTER_ID_BITS;

/// Largest worker id, 31.
pub const MAX_WORKER_ID: u8 = 31;

/// Largest data-center id, 31.
pub const MAX_DATA_CENTER_ID: u8 = 31;

/// Largest sequence number within one millisecond, 4095.
pub const MAX_SEQUENCE: u16 = 4095;

/// Largest timestamp that leaves room for the other fields in 128 bits:
/// `2^106 - 1`.
pub const MAX_TIMESTAMP: u128 = 0x3ff_ffff_ffff_ffff_ffff_ffff_ffff;

/// The value of an identifier with the given fields: the timestamp above bit
/// 22, the data center above bit 17, the worker above bit 12, the sequence
/// below.
pub open spec fn pack(timestamp: nat, data_center_id: nat, worker_id: nat, sequence: nat) -> nat {
    timestamp * 0x40_0000 + data_center_id * 0x2_0000 + worker_id * 0x1000 + sequence
}

/// The timestamp of an identifier: what stands above bit 22.
pub open spec fn timestamp_of(id: nat) -> nat {
    id / 0x40_0000
}

/// The data-center id of an identifier: bits 17 to 21.
pub open spec fn data_center_id_of(id: nat) -> nat {
    (id / 0x2_0000) % 32
}

/// The worker id of an identifier: bits 12 to 16.
pub open spec fn worker_id_of(id: nat) -> nat {
    (id / 0x1000) % 32
}

/// The sequence number of an identifier: bits 0 to 11.
pub open spec fn sequence_of(id: nat) -> nat {
    id % 0x1000
}

/// Whether the three lower fields fit their widths.
pub open spec fn fields_in_range(data_center_id: nat, worker_id: nat, sequence: nat) -> bool {
    data_center_id <= MAX_DATA_CENTER_ID && worker_id <= MAX_WORKER_ID && sequence <= MAX_SEQUENCE
}

/// Packs the four fields into one identifier, by the shifts of the layout.
pub fn compose(timestamp: u128, data_center_id: u8, worker_id: u8, sequence: u16) -> (id: u128)
    requires
        timestamp <= MAX_TIMESTAMP,
        fields_in_range(data_center_id as nat, worker_id as nat, sequence as nat),
    ensures
        id == pack(timestamp as nat, data_center_id as nat, worker_id as nat, sequence as nat),
        id == (timestamp << 22) | ((data_center_id as u128) << 17) | ((worker_id as u128) << 12) | (
        sequence as u128),
{
    let dc: u128 = data_center_id as u128;
    let w: u128 = worker_id as u128;
    let s: u128 = sequence as u128;
    assert((timestamp << 22) | (dc << 17) | (w << 12) | s == timestamp * 0x40_0000 + dc * 0x2_0000
        + w * 0x1000 + s) by (bit_vector)
        requires
            timestamp <= 0x3ff_ffff_ffff_ffff_ffff_ffff_ffffu128,
            dc <= 31,
            w <= 31,
            s <= 4095,
    ;
    (timestamp << TIMESTAMP_SHIFT) | (dc << DATA_CENTER_ID_SHIFT) | (w << WORKER_ID_SHIFT) | s
}

/// Taking an identifier apart gives back the fields it was packed from.
pub proof fn lemma_pack_fields(timestamp: nat, data_center_id: nat, worker_id: nat, sequence: nat)
    requires
        fields_in_range(data_center_id, worker_id, sequence),
    ensures
        timestamp_of(pack(timestamp, data_center_id, worker_id, sequence)) == timestamp,
        data_center_id_of(pack(timestamp, data_center_id, worker_id, sequence)) == data_center_id,
        worker_id_of(pack(timestamp, data_center_id, worker_id, sequence)) == worker_id,
        sequence_of(pack(timestamp, data_center_id, worker_id, sequence)) == sequence,
{
}

/// Two identifiers are equal only if all four of their fields are.
pub proof fn lemma_pack_injective(
    t1: nat,
    dc1: nat,
    w1: nat,
    s1: nat,
    t2: nat,
    dc2: nat,
    w2: nat,
    s2: nat,
)
    requires
        fields_in_range(dc1, w1, s1),
        fields_in_range(dc2, w2, s2),
        pack(t1, dc1, w1, s1) == pack(t2, dc2, w2, s2),
    ensures
        t1 == t2,
        dc1 == dc2,
        w1 == w2,
        s1 == s2,
{
    lemma_pack_fields(t1, dc1, w1, s1);
    lemma_pack_fields(t2, dc2, w2, s2);
}

/// Identifiers of one node are ordered by timestamp first, by sequence second.
pub proof fn lemma_pack_ordered(
    t1: nat,
    s1: nat,
    t2: nat,
    s2: nat,
    data_center_id: nat,
    worker_id: nat,
)
    requires
        fields_in_range(data_center_id, worker_id, s1),
        fields_in_range(data_center_id, worker_id, s2),
    ensures
        pack(t1, data_center_id, worker_id, s1) < pack(t2, data_center_id, worker_id, s2) <==> (t1
            < t2 || (t1 == t2 && s1 < s2)),
{
}

/// The fields of a 128-bit identifier are read by shifting and masking.
pub proof fn lemma_fields_by_shifts(id: u128)
    ensures
        timestamp_of(id as nat) == id >> 22,
        data_center_id_of(id as nat) == (id >> 17) & 0x1f,
        worker_id_of(id as nat) == (id >> 12) & 0x1f,
        sequence_of(id as nat) == id & 0xfff,
{
    assert(id / 0x40_0000 == id >> 22) by (bit_vector);
    assert((id / 0x2_0000) % 32 == (id >> 17) & 0x1f) by (bit_vector);
    assert((id / 0x1000) % 32 == (id >> 12) & 0x1f) by (bit_vector);
    assert(id % 0x1000 == id & 0xfff) by (bit_vector);
}

} // verus!
