use shared_memory::errors::ShmError;
use shared_memory::segment::SharedMemory;

#[test]
fn fresh_segment_reads_empty() {
    let seg = SharedMemory::create(String::from("fresh"), 16).unwrap();
    assert_eq!(seg.read_data(), Vec::<u8>::new());
}

#[test]
fn write_then_read_returns_payload() {
    let mut seg = SharedMemory::create(String::from("roundtrip"), 16).unwrap();
    assert!(seg.write_data(&[1, 2, 3]).is_ok());
    assert_eq!(seg.read_data(), vec![1, 2, 3]);
}

#[test]
fn write_then_read_strips_trailing_zeros() {
    let mut seg = SharedMemory::create(String::from("trim"), 16).unwrap();
    assert!(seg.write_data(&[5, 0, 7, 0, 0]).is_ok());
    assert_eq!(seg.read_data(), vec![5, 0, 7]);
}

#[test]
fn write_of_full_capacity_payload_succeeds() {
    let mut seg = SharedMemory::create(String::from("full"), 4).unwrap();
    assert!(seg.write_data(&[9, 8, 7, 6]).is_ok());
    assert_eq!(seg.read_data(), vec![9, 8, 7, 6]);
}

#[test]
fn oversized_write_is_rejected_and_changes_nothing() {
    let mut seg = SharedMemory::create(String::from("oversize"), 4).unwrap();
    assert!(seg.write_data(&[1, 2]).is_ok());
    let r = seg.write_data(&[1, 2, 3, 4, 5]);
    assert_eq!(r, Err(ShmError::TooLarge));
    assert_eq!(seg.read_data(), vec![1, 2]);
}

#[test]
fn create_rejects_nonpositive_capacity() {
    assert_eq!(
        SharedMemory::create(String::from("zero"), 0).err(),
        Some(ShmError::InvalidArgument)
    );
    assert_eq!(
        SharedMemory::create(String::from("negative"), -3).err(),
        Some(ShmError::InvalidArgument)
    );
}

#[test]
fn open_rejects_nonpositive_capacity() {
    assert_eq!(
        SharedMemory::open(String::from("zero"), 0).err(),
        Some(ShmError::InvalidArgument)
    );
}

#[test]
fn name_is_repeatable() {
    let seg = SharedMemory::create(String::from("named"), 8).unwrap();
    assert_eq!(seg.name(), "named");
    assert_eq!(seg.name(), "named");
}

#[test]
fn size_and_creator_flags() {
    let creator = SharedMemory::create(String::from("flags"), 32).unwrap();
    assert_eq!(creator.size(), 32);
    assert!(creator.is_creator());
    let opener = SharedMemory::open(String::from("flags"), 32).unwrap();
    assert_eq!(opener.size(), 32);
    assert!(!opener.is_creator());
}

#[test]
fn bytes_exposes_zero_padded_region() {
    let mut seg = SharedMemory::create(String::from("padded"), 4).unwrap();
    assert!(seg.write_data(&[1, 2]).is_ok());
    assert_eq!(seg.bytes().as_slice(), &[1, 2, 0, 0]);
}

#[test]
fn snapshot_from_another_view_is_visible() {
    let mut writer = SharedMemory::create(String::from("shared"), 8).unwrap();
    assert!(writer.write_string("hello").is_ok());
    let mut reader = SharedMemory::open(String::from("shared"), 8).unwrap();
    assert!(reader.load_region(writer.bytes().as_slice()).is_ok());
    assert_eq!(reader.read_string(), "hello");
}

#[test]
fn snapshot_of_wrong_length_is_rejected() {
    let mut seg = SharedMemory::create(String::from("snapshot"), 8).unwrap();
    assert!(seg.write_data(&[3]).is_ok());
    let r = seg.load_region(&[1, 2, 3]);
    assert_eq!(r, Err(ShmError::InvalidArgument));
    assert_eq!(seg.read_data(), vec![3]);
}
