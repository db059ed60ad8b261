//! The configuration space: the bytes that the driver reads and writes.

use vm_memory::{ByteValued, Le64};
use vstd::prelude::*;

verus! {

/// Number of bytes that the capacity takes, with which every configuration space
/// begins.
pub const CAPACITY_SIZE: usize = 8;

/// Offset of the number of queues, in a configuration space that shows it.
pub const NUM_QUEUES_OFFSET: usize = 34;

/// Number of bytes between the capacity and the number of queues.
pub const BETWEEN_SIZE: usize = 26;

/// Number of bytes in a configuration space that shows the number of queues.
pub const MULTIQUEUE_SIZE: usize = 36;

/// What lies behind the capacity in the configuration space of a device that
/// offers several queues.
#[derive(Clone, Copy, Debug, PartialEq, Eq)]
pub struct MultiqueueSpace {
    /// Fields of features that the device does not offer.
    pub between: [u8; BETWEEN_SIZE],
    /// Number of request queues.
    pub num_queues: u16,
}

/// What the configuration space holds. The driver sees it in little-endian
/// order. The number of queues has a place in it only where several queues are
/// offered; otherwise the space ends behind the capacity.
#[derive(Clone, Copy, Debug, PartialEq, Eq)]
pub struct ConfigSpace {
    /// Number of sectors of the disk.
    pub capacity: u64,
    /// The number of queues, where it is shown.
    pub multiqueue: Option<MultiqueueSpace>,
}

impl Default for ConfigSpace {
    fn default() -> (space: Self)
        ensures
            space.capacity == 0,
            space.multiqueue is None,
    {
        ConfigSpace { capacity: 0, multiqueue: None }
    }
}

/// The bytes of a number, lowest first.
pub open spec fn le_bytes(value: u64) -> Seq<u8> {
    seq![
        (value & 0xff) as u8,
        ((value >> 8) & 0xff) as u8,
        ((value >> 16) & 0xff) as u8,
        ((value >> 24) & 0xff) as u8,
        ((value >> 32) & 0xff) as u8,
        ((value >> 40) & 0xff) as u8,
        ((value >> 48) & 0xff) as u8,
        ((value >> 56) & 0xff) as u8,
    ]
}

/// The number that eight bytes stand for, lowest first.
pub open spec fn from_le_bytes(bytes: Seq<u8>) -> u64 {
    (bytes[0] as u64) | (bytes[1] as u64) << 8 | (bytes[2] as u64) << 16 | (bytes[3] as u64) << 24
        | (bytes[4] as u64) << 32 | (bytes[5] as u64) << 40 | (bytes[6] as u64) << 48 | (
    bytes[7] as u64) << 56
}

/// The two bytes of a number, lowest first.
pub open spec fn le_bytes_16(value: u16) -> Seq<u8> {
    seq![(value & 0xff) as u8, ((value >> 8) & 0xff) as u8]
}

/// The number that two bytes stand for, lowest first.
pub open spec fn from_le_bytes_16(low: u8, high: u8) -> u16 {
    (low as u16) | (high as u16) << 8
}

/// Bytes after `data` was written over them from `offset` on.
pub open spec fn overwritten(bytes: Seq<u8>, offset: int, data: Seq<u8>) -> Seq<u8> {
    Seq::new(
        bytes.len(),
        |i: int|
            if offset <= i < offset + data.len() {
                data[i - offset]
            } else {
                bytes[i]
            },
    )
}

/// `ByteValued::as_slice` of vm-memory on a `Le64`: the bytes of a number in
/// little-endian order.
#[verifier::external_body]
fn le64_as_slice(value: u64) -> (bytes: Vec<u8>)
    ensures
        bytes@ == le_bytes(value),
{
    Le64::from(value).as_slice().to_vec()
}

/// `ByteValued::as_mut_slice` of vm-memory on a `Le64`: writing eight bytes
/// through it sets the number that they stand for in little-endian order.
#[verifier::external_body]
fn le64_from_slice(bytes: &[u8]) -> (value: u64)
    requires
        bytes@.len() == 8,
    ensures
        value == from_le_bytes(bytes@),
{
    let mut value = Le64::default();
    value.as_mut_slice().copy_from_slice(bytes);
    value.to_native()
}

proof fn lemma_number_of_bytes(value: u64)
    ensures
        from_le_bytes(le_bytes(value)) == value,
{
    assert(value == (((value & 0xff) as u8) as u64)
        | (((((value >> 8) & 0xff) as u8) as u64) << 8)
        | (((((value >> 16) & 0xff) as u8) as u64) << 16)
        | (((((value >> 24) & 0xff) as u8) as u64) << 24)
        | (((((value >> 32) & 0xff) as u8) as u64) << 32)
        | (((((value >> 40) & 0xff) as u8) as u64) << 40)
        | (((((value >> 48) & 0xff) as u8) as u64) << 48)
        | (((((value >> 56) & 0xff) as u8) as u64) << 56)) by (bit_vector);
}

proof fn lemma_bytes_of_number(bytes: Seq<u8>)
    requires
        bytes.len() == 8,
    ensures
        le_bytes(from_le_bytes(bytes)) == bytes,
{
    let (a, b, c, d) = (bytes[0], bytes[1], bytes[2], bytes[3]);
    let (e, f, g, h) = (bytes[4], bytes[5], bytes[6], bytes[7]);
    let value = from_le_bytes(bytes);
    assert((value & 0xff) as u8 == a && ((value >> 8) & 0xff) as u8 == b && ((value >> 16)
        & 0xff) as u8 == c && ((value >> 24) & 0xff) as u8 == d && ((value >> 32) & 0xff) as u8
        == e && ((value >> 40) & 0xff) as u8 == f && ((value >> 48) & 0xff) as u8 == g
        && ((value >> 56) & 0xff) as u8 == h) by (bit_vector)
        requires
            value == a as u64 | (b as u64) << 8 | (c as u64) << 16 | (d as u64) << 24 | (e as u64)
                << 32 | (f as u64) << 40 | (g as u64) << 48 | (h as u64) << 56,
    ;
    assert(le_bytes(value) =~= bytes);
}

proof fn lemma_number_of_two_bytes(value: u16)
    ensures
        from_le_bytes_16(le_bytes_16(value)[0], le_bytes_16(value)[1]) == value,
{
    assert(value == (((value & 0xff) as u8) as u16) | (((((value >> 8) & 0xff) as u8) as u16)
        << 8)) by (bit_vector);
}

proof fn lemma_two_bytes_of_number(low: u8, high: u8)
    ensures
        le_bytes_16(from_le_bytes_16(low, high)) == seq![low, high],
{
    let value = from_le_bytes_16(low, high);
    assert((value & 0xff) as u8 == low && ((value >> 8) & 0xff) as u8 == high) by (bit_vector)
        requires
            value == low as u16 | (high as u16) << 8,
    ;
}

impl MultiqueueSpace {
    /// The bytes that the driver sees behind the capacity.
    pub open spec fn bytes(self) -> Seq<u8> {
        self.between@ + le_bytes_16(self.num_queues)
    }

    /// The bytes that the driver sees behind the capacity, appended to `bytes`.
    fn append_to(&self, bytes: &mut Vec<u8>)
        ensures
            final(bytes)@ == old(bytes)@ + self.bytes(),
    {
        let ghost before = bytes@;
        let mut i: usize = 0;
        while i < BETWEEN_SIZE
            invariant
                i <= BETWEEN_SIZE == self.between@.len(),
                bytes@ == before + self.between@.take(i as int),
            decreases BETWEEN_SIZE - i,
        {
            bytes.push(self.between[i]);
            i = i + 1;
            assert(bytes@ =~= before + self.between@.take(i as int));
        }
        bytes.push((self.num_queues & 0xff) as u8);
        bytes.push(((self.num_queues >> 8) & 0xff) as u8);
        assert(bytes@ =~= before + self.bytes());
    }

    /// What the bytes of a configuration space hold behind the capacity.
    fn from_bytes(bytes: &Vec<u8>) -> (space: Self)
        requires
            bytes@.len() == MULTIQUEUE_SIZE,
        ensures
            space.bytes() == bytes@.skip(CAPACITY_SIZE as int),
    {
        let mut between: [u8; BETWEEN_SIZE] = [0u8; BETWEEN_SIZE];
        let mut i: usize = 0;
        while i < BETWEEN_SIZE
            invariant
                i <= BETWEEN_SIZE,
                bytes@.len() == MULTIQUEUE_SIZE,
                between@.len() == BETWEEN_SIZE,
                forall|j: int| 0 <= j < i ==> between@[j] == bytes@[CAPACITY_SIZE + j],
            decreases BETWEEN_SIZE - i,
        {
            between[i] = bytes[CAPACITY_SIZE + i];
            i = i + 1;
        }
        let low: u8 = bytes[NUM_QUEUES_OFFSET];
        let high: u8 = bytes[NUM_QUEUES_OFFSET + 1];
        let num_queues: u16 = (low as u16) | ((high as u16) << 8);
        let space = MultiqueueSpace { between, num_queues };
        proof {
            lemma_two_bytes_of_number(low, high);
            assert(space.bytes() =~= bytes@.skip(CAPACITY_SIZE as int));
        }
        space
    }
}

impl ConfigSpace {
    /// The bytes that the driver sees.
    pub open spec fn bytes(self) -> Seq<u8> {
        match self.multiqueue {
            Some(multiqueue) => le_bytes(self.capacity) + multiqueue.bytes(),
            None => le_bytes(self.capacity),
        }
    }

    /// Whether the number of queues is shown.
    pub open spec fn shows_queues(self) -> bool {
        self.multiqueue is Some
    }

    /// The number of queues that the driver reads. A space that does not show it
    /// stands for one queue.
    pub open spec fn shown_queues(self) -> u16 {
        match self.multiqueue {
            Some(multiqueue) => multiqueue.num_queues,
            None => 1,
        }
    }

    /// Whether the space is the one of a disk of `capacity` sectors with
    /// `num_queues` queues. The fields of features that are not offered are zero.
    pub open spec fn is_made_of(self, capacity: u64, num_queues: u16) -> bool {
        &&& self.capacity == capacity
        &&& match self.multiqueue {
            Some(multiqueue) => {
                &&& num_queues > 1
                &&& multiqueue.num_queues == num_queues
                &&& multiqueue.between@ == Seq::new(BETWEEN_SIZE as nat, |i: int| 0u8)
            },
            None => num_queues <= 1,
        }
    }

    /// Whether `len` bytes from `offset` on lie within the configuration space.
    pub open spec fn in_bounds(self, offset: u64, len: nat) -> bool {
        offset + len <= self.bytes().len()
    }

    /// The configuration space of a disk of `capacity` sectors with `num_queues`
    /// queues.
    pub fn new(capacity: u64, num_queues: u16) -> (space: Self)
        ensures
            space.is_made_of(capacity, num_queues),
    {
        let multiqueue = if num_queues > 1 {
            let between: [u8; BETWEEN_SIZE] = [0u8; BETWEEN_SIZE];
            assert(between@ =~= Seq::new(BETWEEN_SIZE as nat, |i: int| 0u8));
            Some(MultiqueueSpace { between, num_queues })
        } else {
            None
        };
        ConfigSpace { capacity, multiqueue }
    }

    /// The number of queues that the driver reads.
    pub fn num_queues(&self) -> (num_queues: u16)
        ensures
            num_queues == self.shown_queues(),
    {
        match &self.multiqueue {
            Some(multiqueue) => multiqueue.num_queues,
            None => 1,
        }
    }

    /// The bytes that the driver sees.
    pub fn as_bytes(&self) -> (bytes: Vec<u8>)
        ensures
            bytes@ == self.bytes(),
    {
        let mut bytes = le64_as_slice(self.capacity);
        if let Some(multiqueue) = &self.multiqueue {
            multiqueue.append_to(&mut bytes);
        }
        bytes
    }

    /// Takes the bytes that the driver is to see.
    fn set_bytes(&mut self, bytes: &Vec<u8>)
        requires
            bytes@.len() == old(self).bytes().len(),
        ensures
            final(self).bytes() == bytes@,
    {
        let capacity_bytes = vstd::slice::slice_subrange(bytes.as_slice(), 0, CAPACITY_SIZE);
        self.capacity = le64_from_slice(capacity_bytes);
        proof {
            lemma_bytes_of_number(capacity_bytes@);
        }
        if self.multiqueue.is_some() {
            self.multiqueue = Some(MultiqueueSpace::from_bytes(bytes));
        }
        assert(self.bytes() =~= bytes@);
    }

    /// Writes `data` from `offset` on, if it fits, and says whether it did. What
    /// does not fit changes nothing.
    pub fn write(&mut self, offset: u64, data: &[u8]) -> (written: bool)
        ensures
            written == old(self).in_bounds(offset, data@.len()),
            final(self).bytes() == if written {
                overwritten(old(self).bytes(), offset as int, data@)
            } else {
                old(self).bytes()
            },
            !written ==> *final(self) == *old(self),
            final(self).shows_queues() == old(self).shows_queues(),
    {
        let mut bytes = self.as_bytes();
        let ghost before = bytes@;
        let size: usize = bytes.len();
        if offset > size as u64 {
            return false;
        }
        let start: usize = offset as usize;
        if data.len() > size - start {
            return false;
        }
        let mut i: usize = 0;
        while i < data.len()
            invariant
                start + data@.len() <= before.len() == size,
                i <= data@.len(),
                bytes@ == overwritten(before, start as int, data@.take(i as int)),
            decreases data@.len() - i,
        {
            bytes[start + i] = data[i];
            i = i + 1;
            assert(bytes@ =~= overwritten(before, start as int, data@.take(i as int)));
        }
        assert(data@.take(data@.len() as int) =~= data@);
        self.set_bytes(&bytes);
        true
    }
}

/// The configuration space is told by its bytes, as far as the driver sees it:
/// its capacity, and the number of queues with what lies before it.
pub proof fn law_bytes_tell_the_space(a: ConfigSpace, b: ConfigSpace)
    requires
        a.bytes() == b.bytes(),
    ensures
        a.capacity == b.capacity,
        a.shows_queues() == b.shows_queues(),
        a.shown_queues() == b.shown_queues(),
        a.multiqueue matches Some(space) ==> space.between@ == b.multiqueue->Some_0.between@,
{
    assert(le_bytes(a.capacity) =~= a.bytes().take(CAPACITY_SIZE as int));
    assert(le_bytes(b.capacity) =~= b.bytes().take(CAPACITY_SIZE as int));
    lemma_number_of_bytes(a.capacity);
    lemma_number_of_bytes(b.capacity);
    if a.shows_queues() && b.shows_queues() {
        let (x, y) = (a.multiqueue->Some_0, b.multiqueue->Some_0);
        lemma_number_of_two_bytes(x.num_queues);
        lemma_number_of_two_bytes(y.num_queues);
        assert(le_bytes_16(x.num_queues) =~= a.bytes().skip(NUM_QUEUES_OFFSET as int));
        assert(le_bytes_16(y.num_queues) =~= b.bytes().skip(NUM_QUEUES_OFFSET as int));
        assert(x.between@ =~= a.bytes().subrange(CAPACITY_SIZE as int, NUM_QUEUES_OFFSET as int));
        assert(y.between@ =~= b.bytes().subrange(CAPACITY_SIZE as int, NUM_QUEUES_OFFSET as int));
    }
}

/// The driver reads the number of sectors from the beginning of the space, and
/// the number of queues, where it is shown, from its place.
pub proof fn law_driver_reads_capacity_and_queues(space: ConfigSpace)
    ensures
        space.bytes().len() == if space.shows_queues() {
            MULTIQUEUE_SIZE
        } else {
            CAPACITY_SIZE
        },
        space.bytes().take(CAPACITY_SIZE as int) == le_bytes(space.capacity),
        space.shows_queues() ==> space.bytes().skip(NUM_QUEUES_OFFSET as int) == le_bytes_16(
            space.shown_queues(),
        ),
{
    assert(space.bytes().take(CAPACITY_SIZE as int) =~= le_bytes(space.capacity));
    if space.shows_queues() {
        assert(space.bytes().skip(NUM_QUEUES_OFFSET as int) =~= le_bytes_16(
            space.shown_queues(),
        ));
    }
}

/// What was written is what is read back at the same place, and everything else
/// stays.
pub proof fn law_reads_give_back_writes(bytes: Seq<u8>, offset: int, data: Seq<u8>, i: int)
    requires
        0 <= offset,
        offset + data.len() <= bytes.len(),
        0 <= i < bytes.len(),
    ensures
        overwritten(bytes, offset, data).subrange(offset, offset + data.len()) == data,
        !(offset <= i < offset + data.len()) ==> overwritten(bytes, offset, data)[i] == bytes[i],
{
    assert(overwritten(bytes, offset, data).subrange(offset, offset + data.len()) =~= data);
}

/// Writing in pieces, down to single bytes, does what writing at once does.
pub proof fn law_writes_can_be_split(bytes: Seq<u8>, offset: int, first: Seq<u8>, second: Seq<u8>)
    ensures
        overwritten(overwritten(bytes, offset, first), offset + first.len(), second)
            == overwritten(bytes, offset, first + second),
{
    assert(overwritten(overwritten(bytes, offset, first), offset + first.len(), second)
        =~= overwritten(bytes, offset, first + second));
}

/// A number is the sum of its bytes, the lowest first, each counting 256 times
/// as much as the one before it.
pub proof fn law_bytes_are_lowest_first(value: u64)
    ensures
        le_bytes(value).len() == 8,
        value == le_bytes(value)[0] + 0x100 * le_bytes(value)[1] + 0x1_0000 * le_bytes(value)[2]
            + 0x100_0000 * le_bytes(value)[3] + 0x1_0000_0000 * le_bytes(value)[4]
            + 0x100_0000_0000 * le_bytes(value)[5] + 0x1_0000_0000_0000 * le_bytes(value)[6]
            + 0x100_0000_0000_0000 * le_bytes(value)[7],
{
    assert(value == ((value & 0xff) as u8) + 0x100 * (((value >> 8) & 0xff) as u8) + 0x1_0000 * (((
    value >> 16) & 0xff) as u8) + 0x100_0000 * (((value >> 24) & 0xff) as u8) + 0x1_0000_0000 * (((
    value >> 32) & 0xff) as u8) + 0x100_0000_0000 * (((value >> 40) & 0xff) as u8)
        + 0x1_0000_0000_0000 * (((value >> 48) & 0xff) as u8) + 0x100_0000_0000_0000 * (((value
        >> 56) & 0xff) as u8)) by (bit_vector);
}

/// The same of a number of two bytes.
pub proof fn law_two_bytes_are_lowest_first(value: u16, low: u8, high: u8)
    ensures
        le_bytes_16(value).len() == 2,
        value == le_bytes_16(value)[0] + 0x100 * le_bytes_16(value)[1],
        from_le_bytes_16(low, high) == low + 0x100 * high,
{
    assert(value == ((value & 0xff) as u8) + 0x100 * (((value >> 8) & 0xff) as u8))
        by (bit_vector);
    assert((low as u16) | (high as u16) << 8 == low + 0x100 * high) by (bit_vector);
}

/// A write keeps the length of what is written over.
pub proof fn law_writes_keep_the_length(bytes: Seq<u8>, offset: int, data: Seq<u8>)
    ensures
        overwritten(bytes, offset, data).len() == bytes.len(),
{
}

/// A write is accepted exactly if it ends within the space: 8 bytes, or 36 where
/// the number of queues is shown.
pub proof fn law_which_writes_fit(space: ConfigSpace, offset: u64, len: nat)
    ensures
        space.in_bounds(offset, len) <==> offset + len <= if space.multiqueue is Some {
            36int
        } else {
            8int
        },
{
    law_driver_reads_capacity_and_queues(space);
}

/// The driver of a device reads its number of sectors, and its number of queues
/// where there are several. In between it reads zeroes.
pub proof fn law_made_space_shows_sectors_and_queues(
    space: ConfigSpace,
    capacity: u64,
    num_queues: u16,
    i: int,
)
    requires
        space.is_made_of(capacity, num_queues),
    ensures
        space.bytes().len() == if num_queues > 1 {
            36int
        } else {
            8int
        },
        space.bytes().take(8) == le_bytes(capacity),
        num_queues > 1 ==> space.bytes().skip(34) == le_bytes_16(num_queues),
        num_queues > 1 && 8 <= i < 34 ==> space.bytes()[i] == 0,
        num_queues > 1 ==> space.shown_queues() == num_queues,
        num_queues <= 1 ==> space.shown_queues() == 1,
{
    law_driver_reads_capacity_and_queues(space);
    if num_queues > 1 && 8 <= i < 34 {
        assert(space.bytes()[i] == space.multiqueue->Some_0.between@[i - 8]);
    }
}

} // verus!
