//! Synthetic records of fixed shape, filled with random bytes.

use rand::rngs::ThreadRng;
use rand::seq::SliceRandom;
use rand::{Rng, RngCore};
use vstd::prelude::*;
use crate::config::RecordProfile;

verus! {

#[verifier::external_type_specification]
#[verifier::external_body]
pub struct ExThreadRng(rand::rngs::ThreadRng);

/// One record of the plain layout.
#[derive(Debug, PartialEq, Eq)]
pub struct Record {
    pub key: Vec<u8>,
    pub value: Vec<u8>,
}

impl Record {
    /// Whether key and value have the lengths of `profile`.
    pub open spec fn fits(&self, profile: RecordProfile) -> bool {
        &&& self.key@.len() == profile.key_length
        &&& self.value@.len() == profile.value_length
    }

    /// Whether `other` holds the same bytes.
    pub open spec fn same_bytes(&self, other: &Record) -> bool {
        &&& self.key@ == other.key@
        &&& self.value@ == other.value@
    }

    /// A copy that shares nothing with `self`.
    pub fn duplicate(&self) -> (copy: Record)
        ensures
            copy.same_bytes(self),
    {
        Record { key: copy_bytes(&self.key), value: copy_bytes(&self.value) }
    }
}

/// What a [`DuplicateRecord`] holds.
pub struct BlobView {
    /// The whole blob.
    pub bytes: Seq<u8>,
    /// How many of its leading bytes are the key.
    pub key_length: nat,
}

/// One record of the duplicate-key layout: key and value in a single blob.
///
/// All blobs are stored under one shared, empty key; the table keeps them
/// sorted and holds equal blobs once. The leading bytes of a blob, as many as
/// a key is long, are what a lookup asks for.
#[derive(Debug, PartialEq, Eq)]
pub struct DuplicateRecord {
    bytes: Vec<u8>,
    key_length: usize,
}

impl View for DuplicateRecord {
    type V = BlobView;

    closed spec fn view(&self) -> BlobView {
        BlobView { bytes: self.bytes@, key_length: self.key_length as nat }
    }
}

impl DuplicateRecord {
    #[verifier::type_invariant]
    spec fn well_formed(self) -> bool {
        self.key_length <= self.bytes@.len()
    }

    /// Whether the blob is as long as key and value of `profile` together,
    /// and its key as long as a key of `profile`.
    pub open spec fn fits(&self, profile: RecordProfile) -> bool {
        &&& self@.bytes.len() == profile.blob_length()
        &&& self@.key_length == profile.key_length
    }

    /// The leading bytes of the blob that a lookup asks for.
    pub open spec fn spec_inner_key(&self) -> Seq<u8> {
        self@.bytes.subrange(0, self@.key_length as int)
    }

    /// A blob whose leading `key_length` bytes are its key; `None` where the
    /// blob is shorter than that.
    pub fn new(bytes: Vec<u8>, key_length: usize) -> (record: Option<DuplicateRecord>)
        ensures
            record is Some <==> key_length <= bytes@.len(),
            record matches Some(r) ==> r@ == (BlobView {
                bytes: bytes@,
                key_length: key_length as nat,
            }),
    {
        if key_length <= bytes.len() {
            Some(DuplicateRecord { bytes, key_length })
        } else {
            None
        }
    }

    /// The whole blob: what is stored.
    pub fn bytes(&self) -> (bytes: &[u8])
        ensures
            bytes@ == self@.bytes,
    {
        self.bytes.as_slice()
    }

    /// Number of leading bytes that are the key.
    pub fn key_length(&self) -> (length: usize)
        ensures
            length == self@.key_length,
            length <= self@.bytes.len(),
    {
        proof {
            use_type_invariant(self);
        }
        self.key_length
    }

    /// The leading bytes of the blob that a lookup asks for.
    pub fn inner_key(&self) -> (key: &[u8])
        ensures
            key@ == self.spec_inner_key(),
    {
        proof {
            use_type_invariant(self);
        }
        vstd::slice::slice_subrange(self.bytes.as_slice(), 0, self.key_length)
    }

    /// A copy that shares nothing with `self`.
    pub fn duplicate(&self) -> (copy: DuplicateRecord)
        ensures
            copy@ == self@,
    {
        proof {
            use_type_invariant(self);
        }
        DuplicateRecord { bytes: copy_bytes(&self.bytes), key_length: self.key_length }
    }
}

fn copy_bytes(bytes: &Vec<u8>) -> (copy: Vec<u8>)
    ensures
        copy@ == bytes@,
{
    let copy = bytes.clone();
    assert(copy@ =~= bytes@);
    copy
}

/// `rand::Rng::gen::<u8>` on the thread-local generator: one byte drawn from
/// the generator. Nothing is claimed of its value.
///
/// The generator reseeds itself from the operating system now and then and
/// panics where that fails; no argument rules this out.
#[verifier::external_body]
fn sample_byte(rng: &mut ThreadRng) -> (byte: u8) {
    rng.gen()
}

/// `rand::RngCore::fill_bytes` on the thread-local generator: overwrites the
/// buffer in place. Only its length is claimed: it stays what it was.
///
/// The generator reseeds itself from the operating system now and then and
/// panics where that fails; no argument rules this out.
#[verifier::external_body]
fn fill_bytes(rng: &mut ThreadRng, buffer: &mut Vec<u8>)
    ensures
        final(buffer)@.len() == old(buffer)@.len(),
{
    rng.fill_bytes(buffer.as_mut_slice());
}

/// `rand::seq::SliceRandom::shuffle` with the thread-local generator: swaps
/// items of the slice in place. Claimed is that the items afterwards are the
/// items before, each as often as before; nothing is claimed of their order.
///
/// The generator reseeds itself from the operating system now and then and
/// panics where that fails; no argument rules this out.
#[verifier::external_body]
fn shuffle_in_place<T>(rng: &mut ThreadRng, items: &mut Vec<T>)
    ensures
        final(items)@.to_multiset() == old(items)@.to_multiset(),
{
    items.shuffle(rng);
}

/// `length` bytes, each drawn on its own.
pub fn sampled_bytes(rng: &mut ThreadRng, length: usize) -> (bytes: Vec<u8>)
    ensures
        bytes@.len() == length,
{
    let mut bytes: Vec<u8> = Vec::new();
    let mut filled: usize = 0;
    while filled < length
        invariant
            filled <= length,
            bytes@.len() == filled,
        decreases length - filled,
    {
        let byte = sample_byte(rng);
        bytes.push(byte);
        filled = filled + 1;
    }
    bytes
}

/// A buffer of `length` bytes on the heap, overwritten with random bytes in one go.
pub fn filled_bytes(rng: &mut ThreadRng, length: usize) -> (bytes: Vec<u8>)
    ensures
        bytes@.len() == length,
{
    let mut bytes: Vec<u8> = vec![0u8; length];
    fill_bytes(rng, &mut bytes);
    bytes
}

/// Puts `items` into a random order.
///
/// The result holds the items of the argument, each as often as the argument
/// held it.
pub fn shuffled<T>(rng: &mut ThreadRng, items: Vec<T>) -> (result: Vec<T>)
    ensures
        result@.to_multiset() == items@.to_multiset(),
        result@.len() == items@.len(),
{
    let mut result = items;
    shuffle_in_place(rng, &mut result);
    proof {
        result@.to_multiset_ensures();
        items@.to_multiset_ensures();
    }
    result
}

/// Whether every record of `records` has the shape of `profile`.
pub open spec fn all_fit(records: Seq<Record>, profile: RecordProfile) -> bool {
    forall|i: int| 0 <= i < records.len() ==> (#[trigger] records[i]).fits(profile)
}

/// Whether every blob of `records` has the length that `profile` gives.
pub open spec fn all_blobs_fit(records: Seq<DuplicateRecord>, profile: RecordProfile) -> bool {
    forall|i: int| 0 <= i < records.len() ==> (#[trigger] records[i]).fits(profile)
}

/// Whether `copy` holds the bytes of `records`, record by record.
pub open spec fn same_records(copy: Seq<Record>, records: Seq<Record>) -> bool {
    &&& copy.len() == records.len()
    &&& forall|i: int| 0 <= i < records.len() ==> (#[trigger] copy[i]).same_bytes(&records[i])
}

/// Whether `copy` holds the bytes of `records`, blob by blob.
pub open spec fn same_blobs(copy: Seq<DuplicateRecord>, records: Seq<DuplicateRecord>) -> bool {
    &&& copy.len() == records.len()
    &&& forall|i: int| 0 <= i < records.len() ==> (#[trigger] copy[i])@ == records[i]@
}

/// An independent copy of `records`.
pub fn copy_records(records: &Vec<Record>) -> (copy: Vec<Record>)
    ensures
        same_records(copy@, records@),
{
    let mut copy: Vec<Record> = Vec::new();
    let mut done: usize = 0;
    while done < records.len()
        invariant
            done <= records@.len(),
            copy@.len() == done,
            forall|i: int| 0 <= i < done ==> (#[trigger] copy@[i]).same_bytes(&records@[i]),
        decreases records@.len() - done,
    {
        copy.push(records[done].duplicate());
        done = done + 1;
    }
    copy
}

/// An independent copy of `records`.
pub fn copy_blobs(records: &Vec<DuplicateRecord>) -> (copy: Vec<DuplicateRecord>)
    ensures
        same_blobs(copy@, records@),
{
    let mut copy: Vec<DuplicateRecord> = Vec::new();
    let mut done: usize = 0;
    while done < records.len()
        invariant
            done <= records@.len(),
            copy@.len() == done,
            forall|i: int| 0 <= i < done ==> (#[trigger] copy@[i])@ == records@[i]@,
        decreases records@.len() - done,
    {
        copy.push(records[done].duplicate());
        done = done + 1;
    }
    copy
}

/// The workload of a table of small records: `commit_count` records, every key
/// and every value drawn byte by byte, the key first.
pub fn generate_sampled(profile: &RecordProfile, rng: &mut ThreadRng) -> (records: Vec<Record>)
    ensures
        records@.len() == profile.commit_count,
        all_fit(records@, *profile),
{
    let mut records: Vec<Record> = Vec::new();
    let mut made: usize = 0;
    while made < profile.commit_count
        invariant
            made <= profile.commit_count,
            records@.len() == made,
            all_fit(records@, *profile),
        decreases profile.commit_count - made,
    {
        let key = sampled_bytes(rng, profile.key_length);
        let value = sampled_bytes(rng, profile.value_length);
        records.push(Record { key, value });
        made = made + 1;
    }
    records
}

/// The workload of a table of large records: `commit_count` records, every
/// value filled in one go into a buffer on the heap, then the key drawn byte
/// by byte.
pub fn generate_buffered(profile: &RecordProfile, rng: &mut ThreadRng) -> (records: Vec<Record>)
    ensures
        records@.len() == profile.commit_count,
        all_fit(records@, *profile),
{
    let mut records: Vec<Record> = Vec::new();
    let mut made: usize = 0;
    while made < profile.commit_count
        invariant
            made <= profile.commit_count,
            records@.len() == made,
            all_fit(records@, *profile),
        decreases profile.commit_count - made,
    {
        let value = filled_bytes(rng, profile.value_length);
        let key = sampled_bytes(rng, profile.key_length);
        records.push(Record { key, value });
        made = made + 1;
    }
    records
}

/// The workload of a duplicate-key table: `commit_count` blobs, each as long
/// as a key and a value of `profile` together and filled in one go; the
/// leading bytes of a blob, as many as a key of `profile` is long, are its key.
pub fn generate_blobs(profile: &RecordProfile, rng: &mut ThreadRng) -> (records: Vec<
    DuplicateRecord,
>)
    requires
        profile.blob_length() <= usize::MAX,
    ensures
        records@.len() == profile.commit_count,
        all_blobs_fit(records@, *profile),
{
    let length = profile.key_length + profile.value_length;
    let mut records: Vec<DuplicateRecord> = Vec::new();
    let mut made: usize = 0;
    while made < profile.commit_count
        invariant
            made <= profile.commit_count,
            records@.len() == made,
            length == profile.blob_length(),
            all_blobs_fit(records@, *profile),
        decreases profile.commit_count - made,
    {
        let bytes = filled_bytes(rng, length);
        records.push(DuplicateRecord { bytes, key_length: profile.key_length });
        made = made + 1;
    }
    records
}

} // verus!
