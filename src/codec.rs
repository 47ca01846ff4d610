use vstd::prelude::*;

use crate::signaling::{candidate_payloads, IceCandidate};

verus! {

/// Byte capacity of a record that carries one opaque payload inline.
pub const PAYLOAD_CAPACITY: usize = 256;

/// Number of slots of every multi-payload record that crosses the boundary.
/// Entries past this count are dropped when a record is built.
pub const RECORD_CAPACITY: usize = 25;

#[derive(Debug, Clone, Copy, PartialEq, Eq)]
pub enum CodecError {
    /// A payload of this many bytes does not fit `PAYLOAD_CAPACITY`.
    PayloadTooLarge(usize),
}

/// Number of entries a record of `capacity` slots keeps out of `n`.
pub open spec fn kept_count(n: nat, capacity: nat) -> nat {
    if n <= capacity {
        n
    } else {
        capacity
    }
}

/// The slots of a record of `capacity` slots built from `items`: the first
/// items in order, then empty placeholders.
pub open spec fn encode_slots(items: Seq<Seq<u8>>, capacity: nat) -> Seq<Seq<u8>> {
    Seq::new(capacity, |i: int| if i < items.len() { items[i] } else { Seq::empty() })
}

/// What a reader recovers from a record: the first `count` slots.
pub open spec fn decode_slots(count: nat, slots: Seq<Seq<u8>>) -> Seq<Seq<u8>> {
    slots.take(count as int)
}

/// Every payload that a record of `capacity` slots keeps fits
/// `PAYLOAD_CAPACITY`.
pub open spec fn payloads_fit(items: Seq<Seq<u8>>, capacity: nat) -> bool {
    forall|i: int|
        0 <= i < kept_count(items.len(), capacity) ==> (#[trigger] items[i]).len()
            <= PAYLOAD_CAPACITY
}

/// `e` names the length of the first kept payload over `PAYLOAD_CAPACITY`.
pub open spec fn payloads_refused(items: Seq<Seq<u8>>, capacity: nat, e: CodecError) -> bool {
    exists|i: int|
        #![trigger items[i]]
        0 <= i < kept_count(items.len(), capacity) && items[i].len() > PAYLOAD_CAPACITY && e
            == CodecError::PayloadTooLarge(items[i].len() as usize) && forall|j: int|
            0 <= j < i ==> (#[trigger] items[j]).len() <= PAYLOAD_CAPACITY
}

/// The byte contents of each vector, in order.
pub open spec fn byte_seqs(v: Seq<Vec<u8>>) -> Seq<Seq<u8>> {
    Seq::new(v.len(), |i: int| v[i]@)
}

proof fn lemma_byte_seqs_push(s: Seq<Vec<u8>>, v: Vec<u8>)
    ensures
        byte_seqs(s.push(v)) == byte_seqs(s).push(v@),
{
    assert(byte_seqs(s.push(v)) =~= byte_seqs(s).push(v@));
}

/// Taking one more element of a sequence appends that element.
pub proof fn lemma_take_next(s: Seq<Seq<u8>>, i: int)
    requires
        0 <= i < s.len(),
    ensures
        s.take(i + 1) == s.take(i).push(s[i]),
{
    assert(s.take(i + 1) =~= s.take(i).push(s[i]));
}

/// A full copy of a byte buffer.
pub fn copy_bytes(src: &[u8]) -> (r: Vec<u8>)
    ensures
        r@ == src@,
{
    let mut r: Vec<u8> = Vec::with_capacity(src.len());
    let mut i: usize = 0;
    while i < src.len()
        invariant
            i <= src@.len(),
            r@ == src@.subrange(0, i as int),
        decreases src@.len() - i,
    {
        r.push(src[i]);
        i += 1;
        assert(r@ =~= src@.subrange(0, i as int));
    }
    assert(r@ =~= src@);
    r
}

/// A full copy of the first `n` bytes of a buffer.
pub fn copy_prefix(src: &[u8], n: usize) -> (r: Vec<u8>)
    requires
        n <= src@.len(),
    ensures
        r@ == src@.take(n as int),
{
    let mut r: Vec<u8> = Vec::with_capacity(n);
    let mut i: usize = 0;
    while i < n
        invariant
            n <= src@.len(),
            i <= n,
            r@ == src@.take(i as int),
        decreases n - i,
    {
        r.push(src[i]);
        i += 1;
        assert(r@ =~= src@.take(i as int));
    }
    r
}

/// Fixed record that carries one opaque payload of at most
/// `PAYLOAD_CAPACITY` bytes inline, zero-filled past `len`.
#[derive(Clone, Debug, PartialEq, Eq)]
pub struct JArrayByte {
    pub len: usize,
    pub data: Vec<u8>,
}

impl JArrayByte {
    pub open spec fn wf(&self) -> bool {
        &&& self.data@.len() == PAYLOAD_CAPACITY
        &&& self.len <= PAYLOAD_CAPACITY
        &&& forall|i: int| self.len <= i < PAYLOAD_CAPACITY ==> self.data@[i] == 0u8
    }

    /// The payload the record carries.
    pub open spec fn payload(&self) -> Seq<u8> {
        self.data@.subrange(0, self.len as int)
    }

    /// Copies `vector` into a record; a payload over `PAYLOAD_CAPACITY`
    /// bytes is refused.
    pub fn new(vector: Vec<u8>) -> (r: Result<JArrayByte, CodecError>)
        ensures
            match r {
                Ok(a) => vector@.len() <= PAYLOAD_CAPACITY && a.wf() && a.payload() == vector@,
                Err(e) => vector@.len() > PAYLOAD_CAPACITY && e == CodecError::PayloadTooLarge(
                    vector.len(),
                ),
            },
    {
        let vlen = vector.len();
        if vlen > PAYLOAD_CAPACITY {
            return Err(CodecError::PayloadTooLarge(vlen));
        }
        let mut data: Vec<u8> = Vec::with_capacity(PAYLOAD_CAPACITY);
        let mut i: usize = 0;
        while i < PAYLOAD_CAPACITY
            invariant
                vlen == vector@.len(),
                vlen <= PAYLOAD_CAPACITY,
                i <= PAYLOAD_CAPACITY,
                data@.len() == i,
                forall|j: int| 0 <= j < i ==> data@[j] == (if j < vlen { vector@[j] } else { 0u8 }),
            decreases PAYLOAD_CAPACITY - i,
        {
            if i < vlen {
                data.push(vector[i]);
            } else {
                data.push(0);
            }
            i += 1;
        }
        let r = JArrayByte { len: vlen, data };
        assert(r.payload() =~= vector@);
        Ok(r)
    }

    /// A record with no payload.
    pub fn empty() -> (r: JArrayByte)
        ensures
            r.wf(),
            r.len == 0,
            r.payload() == Seq::<u8>::empty(),
    {
        let mut data: Vec<u8> = Vec::with_capacity(PAYLOAD_CAPACITY);
        let mut i: usize = 0;
        while i < PAYLOAD_CAPACITY
            invariant
                i <= PAYLOAD_CAPACITY,
                data@.len() == i,
                forall|j: int| 0 <= j < i ==> data@[j] == 0u8,
            decreases PAYLOAD_CAPACITY - i,
        {
            data.push(0);
            i += 1;
        }
        let r = JArrayByte { len: 0, data };
        assert(r.payload() =~= Seq::<u8>::empty());
        r
    }

    /// A full copy of the payload.
    pub fn to_vec(&self) -> (r: Vec<u8>)
        requires
            self.wf(),
        ensures
            r@ == self.payload(),
    {
        let mut r: Vec<u8> = Vec::with_capacity(self.len);
        let mut i: usize = 0;
        while i < self.len
            invariant
                self.wf(),
                i <= self.len,
                r@ == self.data@.subrange(0, i as int),
            decreases self.len - i,
        {
            r.push(self.data[i]);
            i += 1;
            assert(r@ =~= self.data@.subrange(0, i as int));
        }
        r
    }
}

/// Outgoing record of up to `RECORD_CAPACITY` payloads, each held inline in a
/// `JArrayByte` slot; slots at or past `len` are empty.
#[derive(Clone, Debug, PartialEq, Eq)]
pub struct JArrayByte2D {
    pub len: usize,
    pub data: Vec<JArrayByte>,
}

impl JArrayByte2D {
    pub open spec fn wf(&self) -> bool {
        &&& self.data@.len() == RECORD_CAPACITY
        &&& self.len <= RECORD_CAPACITY
        &&& forall|i: int| 0 <= i < RECORD_CAPACITY ==> (#[trigger] self.data@[i]).wf()
        &&& forall|i: int| self.len <= i < RECORD_CAPACITY ==> (#[trigger] self.data@[i]).len == 0
    }

    /// The payloads of all slots.
    pub open spec fn slots(&self) -> Seq<Seq<u8>> {
        Seq::new(self.data@.len(), |i: int| self.data@[i].payload())
    }

    /// Copies the first `RECORD_CAPACITY` candidates into a record and drops
    /// the rest. Refused when one of the kept payloads exceeds
    /// `PAYLOAD_CAPACITY`; the error names the first such payload's length.
    pub fn new(vector: Vec<IceCandidate>) -> (r: Result<JArrayByte2D, CodecError>)
        ensures
            match r {
                Ok(a) => {
                    &&& payloads_fit(candidate_payloads(vector@), RECORD_CAPACITY as nat)
                    &&& a.wf()
                    &&& a.len == kept_count(vector@.len(), RECORD_CAPACITY as nat)
                    &&& a.slots() == encode_slots(
                        candidate_payloads(vector@),
                        RECORD_CAPACITY as nat,
                    )
                },
                Err(e) => payloads_refused(candidate_payloads(vector@), RECORD_CAPACITY as nat, e),
            },
    {
        let ghost items = candidate_payloads(vector@);
        let vlen = vector.len();
        let mut rows: Vec<JArrayByte> = Vec::with_capacity(RECORD_CAPACITY);
        let mut i: usize = 0;
        while i < RECORD_CAPACITY
            invariant
                items == candidate_payloads(vector@),
                vlen == vector@.len(),
                i <= RECORD_CAPACITY,
                rows@.len() == i,
                forall|j: int| 0 <= j < i ==> (#[trigger] rows@[j]).wf(),
                forall|j: int|
                    0 <= j < i ==> (#[trigger] rows@[j]).payload() == (if j < vlen {
                        items[j]
                    } else {
                        Seq::<u8>::empty()
                    }),
                forall|j: int| 0 <= j < i && j < vlen ==> (#[trigger] items[j]).len() <= PAYLOAD_CAPACITY,
            decreases RECORD_CAPACITY - i,
        {
            if i < vlen {
                let bytes = copy_bytes(vector[i].opaque.as_slice());
                match JArrayByte::new(bytes) {
                    Ok(row) => rows.push(row),
                    Err(e) => {
                        assert(items[i as int].len() > PAYLOAD_CAPACITY);
                        return Err(e);
                    },
                }
            } else {
                rows.push(JArrayByte::empty());
            }
            i += 1;
        }
        let len = if vlen < RECORD_CAPACITY {
            vlen
        } else {
            RECORD_CAPACITY
        };
        let r = JArrayByte2D { len, data: rows };
        assert(r.slots() =~= encode_slots(items, RECORD_CAPACITY as nat));
        Ok(r)
    }

    /// Full copies of the payloads the record carries, in order.
    pub fn to_payloads(&self) -> (r: Vec<Vec<u8>>)
        requires
            self.wf(),
        ensures
            byte_seqs(r@) == decode_slots(self.len as nat, self.slots()),
    {
        let mut r: Vec<Vec<u8>> = Vec::with_capacity(self.len);
        let mut i: usize = 0;
        while i < self.len
            invariant
                self.wf(),
                i <= self.len,
                byte_seqs(r@) == decode_slots(i as nat, self.slots()),
            decreases self.len - i,
        {
            let row = self.data[i].to_vec();
            proof {
                lemma_byte_seqs_push(r@, row);
                lemma_take_next(self.slots(), i as int);
            }
            r.push(row);
            i += 1;
        }
        r
    }
}

/// A payload handed across the boundary, held as an owned copy.
#[derive(Clone, Debug, PartialEq, Eq)]
pub struct JByteArray {
    pub buff: Vec<u8>,
}

impl View for JByteArray {
    type V = Seq<u8>;

    open spec fn view(&self) -> Seq<u8> {
        self.buff@
    }
}

impl JByteArray {
    /// Takes ownership of `vector` as the payload.
    pub fn new(vector: Vec<u8>) -> (r: JByteArray)
        ensures
            r@ == vector@,
    {
        JByteArray { buff: vector }
    }

    /// A full copy of the payload.
    pub fn to_vec_u8(&self) -> (r: Vec<u8>)
        ensures
            r@ == self@,
    {
        copy_bytes(self.buff.as_slice())
    }

    pub fn empty() -> (r: JByteArray)
        ensures
            r@ == Seq::<u8>::empty(),
    {
        JByteArray { buff: Vec::new() }
    }

    /// Copies the bytes the host supplied; nothing of `data` is retained.
    pub fn from_data(data: &[u8]) -> (r: JByteArray)
        ensures
            r@ == data@,
    {
        JByteArray { buff: copy_bytes(data) }
    }

    pub fn len(&self) -> (r: usize)
        ensures
            r == self@.len(),
    {
        self.buff.len()
    }
}

/// Record of up to `RECORD_CAPACITY` payloads in both directions of the
/// boundary; slots at or past `len` are empty.
#[derive(Clone, Debug, PartialEq, Eq)]
pub struct JByteArray2D {
    pub len: usize,
    pub buff: Vec<JByteArray>,
}

impl JByteArray2D {
    pub open spec fn wf(&self) -> bool {
        &&& self.buff@.len() == RECORD_CAPACITY
        &&& self.len <= RECORD_CAPACITY
        &&& forall|i: int| self.len <= i < RECORD_CAPACITY ==> (#[trigger] self.buff@[i])@.len() == 0
    }

    /// The payloads of all slots.
    pub open spec fn slots(&self) -> Seq<Seq<u8>> {
        Seq::new(self.buff@.len(), |i: int| self.buff@[i]@)
    }

    /// Copies the first `RECORD_CAPACITY` candidates into a record and drops
    /// the rest.
    pub fn new(vector: Vec<IceCandidate>) -> (r: JByteArray2D)
        ensures
            r.wf(),
            r.len == kept_count(vector@.len(), RECORD_CAPACITY as nat),
            r.slots() == encode_slots(candidate_payloads(vector@), RECORD_CAPACITY as nat),
    {
        let mut items: Vec<Vec<u8>> = Vec::with_capacity(vector.len());
        let mut i: usize = 0;
        while i < vector.len()
            invariant
                i <= vector@.len(),
                byte_seqs(items@) == candidate_payloads(vector@).take(i as int),
            decreases vector@.len() - i,
        {
            let bytes = copy_bytes(vector[i].opaque.as_slice());
            proof {
                lemma_byte_seqs_push(items@, bytes);
                lemma_take_next(candidate_payloads(vector@), i as int);
            }
            items.push(bytes);
            i += 1;
        }
        assert(candidate_payloads(vector@).take(vector@.len() as int) =~= candidate_payloads(
            vector@,
        ));
        JByteArray2D::from_payloads(items)
    }

    /// Builds a record from the first `RECORD_CAPACITY` payloads and drops
    /// the rest.
    pub fn from_payloads(items: Vec<Vec<u8>>) -> (r: JByteArray2D)
        ensures
            r.wf(),
            r.len == kept_count(items@.len(), RECORD_CAPACITY as nat),
            r.slots() == encode_slots(byte_seqs(items@), RECORD_CAPACITY as nat),
    {
        let ilen = items.len();
        let mut rows: Vec<JByteArray> = Vec::with_capacity(RECORD_CAPACITY);
        let mut i: usize = 0;
        while i < RECORD_CAPACITY
            invariant
                ilen == items@.len(),
                i <= RECORD_CAPACITY,
                rows@.len() == i,
                forall|j: int|
                    0 <= j < i ==> (#[trigger] rows@[j])@ == (if j < ilen {
                        items@[j]@
                    } else {
                        Seq::<u8>::empty()
                    }),
            decreases RECORD_CAPACITY - i,
        {
            if i < ilen {
                rows.push(JByteArray::from_data(items[i].as_slice()));
            } else {
                rows.push(JByteArray::empty());
            }
            i += 1;
        }
        let len = if ilen < RECORD_CAPACITY {
            ilen
        } else {
            RECORD_CAPACITY
        };
        let r = JByteArray2D { len, buff: rows };
        assert(r.slots() =~= encode_slots(byte_seqs(items@), RECORD_CAPACITY as nat));
        r
    }

    /// Full copies of the payloads the record carries, in order.
    pub fn to_payloads(&self) -> (r: Vec<Vec<u8>>)
        requires
            self.wf(),
        ensures
            byte_seqs(r@) == decode_slots(self.len as nat, self.slots()),
    {
        let mut r: Vec<Vec<u8>> = Vec::with_capacity(self.len);
        let mut i: usize = 0;
        while i < self.len
            invariant
                self.wf(),
                i <= self.len,
                byte_seqs(r@) == decode_slots(i as nat, self.slots()),
            decreases self.len - i,
        {
            let row = self.buff[i].to_vec_u8();
            proof {
                lemma_byte_seqs_push(r@, row);
                lemma_take_next(self.slots(), i as int);
            }
            r.push(row);
            i += 1;
        }
        r
    }
}

/// Within capacity, reading back a record built from `items` yields `items`:
/// the same payloads, byte for byte, in the same order.
pub proof fn lemma_round_trip_within_capacity(items: Seq<Seq<u8>>, capacity: nat)
    requires
        items.len() <= capacity,
    ensures
        decode_slots(kept_count(items.len(), capacity), encode_slots(items, capacity)) == items,
{
    assert(decode_slots(kept_count(items.len(), capacity), encode_slots(items, capacity))
        =~= items);
}

/// Past capacity, a record built from `items` counts exactly `capacity`
/// entries, and reading it back yields the first `capacity` items in order.
pub proof fn lemma_truncation_past_capacity(items: Seq<Seq<u8>>, capacity: nat)
    requires
        items.len() > capacity,
    ensures
        kept_count(items.len(), capacity) == capacity,
        decode_slots(kept_count(items.len(), capacity), encode_slots(items, capacity))
            == items.take(capacity as int),
{
    assert(decode_slots(kept_count(items.len(), capacity), encode_slots(items, capacity))
        =~= items.take(capacity as int));
}

} // verus!
