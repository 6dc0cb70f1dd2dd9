use mdbx_bench::config::RecordProfile;
use mdbx_bench::workload::{
    copy_blobs, copy_records, filled_bytes, generate_blobs, generate_buffered, generate_sampled,
    sampled_bytes, shuffled, DuplicateRecord, Record,
};

fn numbered(count: usize) -> Vec<Record> {
    (0..count)
        .map(|i| Record { key: (i as u64).to_be_bytes().to_vec(), value: vec![i as u8; 4] })
        .collect()
}

#[test]
fn sampled_workload_has_count_and_shape() {
    let mut rng = rand::thread_rng();
    let profile = RecordProfile { key_length: 8, value_length: 32, commit_count: 250 };
    let records = generate_sampled(&profile, &mut rng);
    assert_eq!(records.len(), 250);
    for record in &records {
        assert_eq!(record.key.len(), 8);
        assert_eq!(record.value.len(), 32);
    }
}

#[test]
fn buffered_workload_has_count_and_shape() {
    let mut rng = rand::thread_rng();
    let profile = RecordProfile { key_length: 32, value_length: 61_440, commit_count: 12 };
    let records = generate_buffered(&profile, &mut rng);
    assert_eq!(records.len(), 12);
    for record in &records {
        assert_eq!(record.key.len(), 32);
        assert_eq!(record.value.len(), 61_440);
    }
}

#[test]
fn blob_workload_has_count_and_shape() {
    let mut rng = rand::thread_rng();
    let profile = RecordProfile { key_length: 8, value_length: 32, commit_count: 100 };
    let records = generate_blobs(&profile, &mut rng);
    assert_eq!(records.len(), 100);
    for record in &records {
        assert_eq!(record.bytes().len(), 40);
        assert_eq!(record.key_length(), 8);
        assert_eq!(record.inner_key(), &record.bytes()[..8]);
    }
}

#[test]
fn empty_profile_gives_empty_workload() {
    let mut rng = rand::thread_rng();
    let profile = RecordProfile { key_length: 8, value_length: 32, commit_count: 0 };
    assert!(generate_sampled(&profile, &mut rng).is_empty());
    assert!(generate_buffered(&profile, &mut rng).is_empty());
    assert!(generate_blobs(&profile, &mut rng).is_empty());
}

#[test]
fn zero_length_keys_and_values_are_generated() {
    let mut rng = rand::thread_rng();
    let profile = RecordProfile { key_length: 0, value_length: 0, commit_count: 3 };
    let records = generate_sampled(&profile, &mut rng);
    assert_eq!(records.len(), 3);
    assert!(records.iter().all(|record| record.key.is_empty() && record.value.is_empty()));
    let blobs = generate_blobs(&profile, &mut rng);
    assert!(blobs.iter().all(|blob| blob.bytes().is_empty() && blob.inner_key().is_empty()));
}

#[test]
fn sampled_bytes_are_drawn_from_the_generator() {
    let mut rng = rand::thread_rng();
    let bytes = sampled_bytes(&mut rng, 4096);
    assert_eq!(bytes.len(), 4096);
    let first = bytes[0];
    assert!(bytes.iter().any(|byte| *byte != first));
}

#[test]
fn filled_bytes_overwrite_the_zeroed_buffer() {
    let mut rng = rand::thread_rng();
    let bytes = filled_bytes(&mut rng, 61_440);
    assert_eq!(bytes.len(), 61_440);
    assert!(bytes.iter().any(|byte| *byte != 0));
}

#[test]
fn two_workloads_differ() {
    let mut rng = rand::thread_rng();
    let profile = RecordProfile { key_length: 8, value_length: 32, commit_count: 50 };
    let first = generate_sampled(&profile, &mut rng);
    let second = generate_sampled(&profile, &mut rng);
    assert_ne!(first, second);
}

#[test]
fn shuffling_keeps_every_record() {
    let mut rng = rand::thread_rng();
    let expected = numbered(1000);
    let mut result = shuffled(&mut rng, numbered(1000));
    assert_eq!(result.len(), 1000);
    result.sort_by(|a, b| a.key.cmp(&b.key));
    assert_eq!(result, expected);
}

#[test]
fn shuffling_changes_the_order() {
    let mut rng = rand::thread_rng();
    let expected = numbered(1000);
    let result = shuffled(&mut rng, numbered(1000));
    assert_ne!(result, expected);
}

#[test]
fn shuffling_keeps_repeated_records_as_often() {
    let mut rng = rand::thread_rng();
    let items: Vec<u8> = vec![1, 1, 1, 2, 2, 3];
    let mut result = shuffled(&mut rng, items);
    result.sort();
    assert_eq!(result, vec![1, 1, 1, 2, 2, 3]);
}

#[test]
fn shuffling_nothing_or_one_item_changes_nothing() {
    let mut rng = rand::thread_rng();
    let none: Vec<u32> = Vec::new();
    assert!(shuffled(&mut rng, none).is_empty());
    assert_eq!(shuffled(&mut rng, vec![7u32]), vec![7u32]);
}

#[test]
fn copies_hold_the_same_bytes() {
    let expected = numbered(20);
    let copy = copy_records(&expected);
    assert_eq!(copy, expected);
    let record = Record { key: vec![1, 2], value: vec![3] };
    assert_eq!(record.duplicate(), record);
}

#[test]
fn blob_copies_hold_the_same_bytes() {
    let mut rng = rand::thread_rng();
    let profile = RecordProfile { key_length: 4, value_length: 6, commit_count: 10 };
    let blobs = generate_blobs(&profile, &mut rng);
    let copy = copy_blobs(&blobs);
    assert_eq!(copy, blobs);
    assert_eq!(blobs[0].duplicate(), blobs[0]);
}

#[test]
fn a_blob_shorter_than_its_key_is_refused() {
    assert!(DuplicateRecord::new(vec![1, 2, 3], 4).is_none());
    assert!(DuplicateRecord::new(Vec::new(), 1).is_none());
}

#[test]
fn a_blob_knows_its_key() {
    let blob = DuplicateRecord::new(vec![9, 8, 7, 6, 5], 2).unwrap();
    assert_eq!(blob.bytes(), &[9, 8, 7, 6, 5]);
    assert_eq!(blob.key_length(), 2);
    assert_eq!(blob.inner_key(), &[9, 8]);
    let all = DuplicateRecord::new(vec![1, 2, 3], 3).unwrap();
    assert_eq!(all.inner_key(), &[1, 2, 3]);
    let none = DuplicateRecord::new(vec![1, 2, 3], 0).unwrap();
    assert!(none.inner_key().is_empty());
}
