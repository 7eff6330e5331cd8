//! Frames of the tracking sensor's serial protocol.
//!
//! A frame is one identifier byte, one checksum byte, and a payload. The
//! checksum is the XOR of the identifier and every payload byte, so the XOR
//! of all bytes of a valid frame is zero.

use vstd::prelude::*;

verus! {

/// A frame.
#[derive(Debug)]
pub struct Packet {
    pub id: u8,
    pub checksum: u8,
    pub data: Vec<u8>,
}

/// The XOR of every byte of a sequence, zero for the empty one.
pub open spec fn xor_all(data: Seq<u8>) -> u8
    decreases data.len(),
{
    if data.len() == 0 {
        0
    } else {
        xor_all(data.drop_last()) ^ data.last()
    }
}

/// The checksum that goes with an identifier and a payload.
pub open spec fn checksum_of(id: u8, data: Seq<u8>) -> u8 {
    id ^ xor_all(data)
}

/// Whether a frame's checksum matches its identifier and payload.
pub open spec fn is_valid(id: u8, checksum: u8, data: Seq<u8>) -> bool {
    (id ^ checksum) ^ xor_all(data) == 0
}

/// The bytes of a frame in the order they go over the wire.
pub open spec fn wire_bytes(id: u8, checksum: u8, data: Seq<u8>) -> Seq<u8> {
    seq![id, checksum] + data
}

/// A frame is valid exactly when it carries the checksum of its identifier
/// and payload.
pub proof fn lemma_valid_iff_checksum(id: u8, checksum: u8, data: Seq<u8>)
    ensures
        is_valid(id, checksum, data) <==> checksum == checksum_of(id, data),
{
    let x = xor_all(data);
    assert(((id ^ checksum) ^ x == 0) <==> (checksum == id ^ x)) by (bit_vector);
}

/// Replacing one byte of a sequence changes its XOR by the XOR of the old
/// and the new byte.
pub proof fn lemma_xor_all_update(data: Seq<u8>, i: int, b: u8)
    requires
        0 <= i < data.len(),
    ensures
        xor_all(data.update(i, b)) == (xor_all(data) ^ data[i]) ^ b,
    decreases data.len(),
{
    let changed = data.update(i, b);
    if i == data.len() - 1 {
        assert(changed.drop_last() =~= data.drop_last());
        let rest = xor_all(data.drop_last());
        let old_byte = data[i];
        assert(rest ^ b == ((rest ^ old_byte) ^ old_byte) ^ b) by (bit_vector);
    } else {
        lemma_xor_all_update(data.drop_last(), i, b);
        assert(changed.drop_last() =~= data.drop_last().update(i, b));
        let rest = xor_all(data.drop_last());
        let old_byte = data[i];
        let last = data.last();
        assert(((rest ^ old_byte) ^ b) ^ last == ((rest ^ last) ^ old_byte) ^ b) by (bit_vector);
    }
}

/// A frame built from an identifier and a payload, with the checksum that
/// goes with them, is valid.
pub proof fn built_frame_is_valid(id: u8, data: Seq<u8>)
    ensures
        is_valid(id, checksum_of(id, data), data),
{
    lemma_valid_iff_checksum(id, checksum_of(id, data), data);
}

/// Changing any one payload byte of a valid frame to a different value makes
/// the frame invalid.
pub proof fn changed_byte_is_detected(id: u8, checksum: u8, data: Seq<u8>, i: int, b: u8)
    requires
        is_valid(id, checksum, data),
        0 <= i < data.len(),
        b != data[i],
    ensures
        !is_valid(id, checksum, data.update(i, b)),
{
    lemma_xor_all_update(data, i, b);
    let head = id ^ checksum;
    let x = xor_all(data);
    let old_byte = data[i];
    assert((head ^ x == 0 && b != old_byte) ==> (head ^ ((x ^ old_byte) ^ b) != 0))
        by (bit_vector);
}

impl Default for Packet {
    /// The frame with identifier zero and no payload.
    fn default() -> (p: Packet)
        ensures
            p.id == 0,
            p.checksum == 0,
            p.data@ == Seq::<u8>::empty(),
    {
        Packet { id: 0, checksum: 0, data: Vec::new() }
    }
}

impl Packet {
    /// A frame with no payload.
    pub fn new(id: u8) -> (p: Packet)
        ensures
            p.id == id,
            p.checksum == id,
            p.data@ == Seq::<u8>::empty(),
            is_valid(p.id, p.checksum, p.data@),
    {
        assert(id ^ 0 == id) by (bit_vector);
        Packet::with_data(id, Vec::new())
    }

    /// A frame with the given payload and the checksum that goes with it.
    pub fn with_data(id: u8, data: Vec<u8>) -> (p: Packet)
        ensures
            p.id == id,
            p.data@ == data@,
            p.checksum == checksum_of(id, data@),
            is_valid(p.id, p.checksum, p.data@),
    {
        let mut checksum: u8 = id;
        let mut i: usize = 0;
        assert(data@.subrange(0, 0) =~= Seq::<u8>::empty());
        assert(id ^ 0 == id) by (bit_vector);
        while i < data.len()
            invariant
                0 <= i <= data.len(),
                checksum == checksum_of(id, data@.subrange(0, i as int)),
            decreases data.len() - i,
        {
            let ghost before = xor_all(data@.subrange(0, i as int));
            let byte = data[i];
            assert(data@.subrange(0, i + 1).drop_last() =~= data@.subrange(0, i as int));
            assert((id ^ before) ^ byte == id ^ (before ^ byte)) by (bit_vector);
            checksum = checksum ^ byte;
            i = i + 1;
        }
        assert(data@.subrange(0, i as int) =~= data@);
        proof {
            built_frame_is_valid(id, data@);
        }
        Packet { id, checksum, data }
    }

    /// Whether the checksum matches the identifier and the payload.
    pub fn is_correct(&self) -> (ok: bool)
        ensures
            ok == is_valid(self.id, self.checksum, self.data@),
    {
        let head: u8 = self.id ^ self.checksum;
        let mut parity: u8 = head;
        let mut i: usize = 0;
        assert(self.data@.subrange(0, 0) =~= Seq::<u8>::empty());
        assert(head ^ 0 == head) by (bit_vector);
        while i < self.data.len()
            invariant
                0 <= i <= self.data.len(),
                head == self.id ^ self.checksum,
                parity == head ^ xor_all(self.data@.subrange(0, i as int)),
            decreases self.data.len() - i,
        {
            let ghost before = xor_all(self.data@.subrange(0, i as int));
            let byte = self.data[i];
            assert(self.data@.subrange(0, i + 1).drop_last() =~= self.data@.subrange(0, i as int));
            assert((head ^ before) ^ byte == head ^ (before ^ byte)) by (bit_vector);
            parity = parity ^ byte;
            i = i + 1;
        }
        assert(self.data@.subrange(0, i as int) =~= self.data@);
        parity == 0
    }

    /// The bytes of the frame in the order they go over the wire.
    pub fn to_bytes(&self) -> (bytes: Vec<u8>)
        ensures
            bytes@ == wire_bytes(self.id, self.checksum, self.data@),
    {
        let mut bytes: Vec<u8> = Vec::new();
        bytes.push(self.id);
        bytes.push(self.checksum);
        let mut i: usize = 0;
        while i < self.data.len()
            invariant
                0 <= i <= self.data.len(),
                bytes@ == seq![self.id, self.checksum] + self.data@.subrange(0, i as int),
            decreases self.data.len() - i,
        {
            bytes.push(self.data[i]);
            assert(bytes@ =~= seq![self.id, self.checksum] + self.data@.subrange(0, i + 1));
            i = i + 1;
        }
        assert(self.data@.subrange(0, i as int) =~= self.data@);
        bytes
    }

    /// The frame that a run of received bytes holds: the first byte is the
    /// identifier, the second the checksum, the rest the payload. A byte
    /// that is missing reads as zero.
    pub fn from_bytes(bytes: &Vec<u8>) -> (p: Packet)
        ensures
            p.id == if bytes@.len() >= 1 { bytes@[0] } else { 0 },
            p.checksum == if bytes@.len() >= 2 { bytes@[1] } else { 0 },
            p.data@ == if bytes@.len() >= 2 {
                bytes@.subrange(2, bytes@.len() as int)
            } else {
                Seq::<u8>::empty()
            },
    {
        let id: u8 = if bytes.len() >= 1 { bytes[0] } else { 0 };
        let checksum: u8 = if bytes.len() >= 2 { bytes[1] } else { 0 };
        let mut data: Vec<u8> = Vec::new();
        let mut i: usize = 2;
        while i < bytes.len()
            invariant
                2 <= i,
                i <= bytes.len() || bytes.len() < 2,
                bytes.len() >= 2 ==> data@ == bytes@.subrange(2, i as int),
                bytes.len() < 2 ==> data@ == Seq::<u8>::empty(),
            decreases bytes.len() - i,
        {
            data.push(bytes[i]);
            assert(data@ =~= bytes@.subrange(2, i + 1));
            i = i + 1;
        }
        Packet { id, checksum, data }
    }
}

/// Reading back the bytes of a frame gives the frame.
pub proof fn wire_round_trip(id: u8, checksum: u8, data: Seq<u8>)
    ensures
        wire_bytes(id, checksum, data).len() == data.len() + 2,
        wire_bytes(id, checksum, data)[0] == id,
        wire_bytes(id, checksum, data)[1] == checksum,
        wire_bytes(id, checksum, data).subrange(2, data.len() as int + 2) == data,
{
    assert(wire_bytes(id, checksum, data).subrange(2, data.len() as int + 2) =~= data);
}

} // verus!
