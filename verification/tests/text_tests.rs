use shared_memory::errors::ShmError;
use shared_memory::segment::SharedMemory;

#[test]
fn text_round_trip_ascii() {
    let mut seg = SharedMemory::create(String::from("ascii"), 16).unwrap();
    assert!(seg.write_string("hello").is_ok());
    assert_eq!(seg.read_string(), "hello");
}

#[test]
fn text_round_trip_multibyte() {
    let mut seg = SharedMemory::create(String::from("multibyte"), 32).unwrap();
    assert!(seg.write_string("héllo wörld ✓").is_ok());
    assert_eq!(seg.read_string(), "héllo wörld ✓");
}

#[test]
fn empty_text_round_trip() {
    let mut seg = SharedMemory::create(String::from("empty"), 8).unwrap();
    assert!(seg.write_string("").is_ok());
    assert_eq!(seg.read_string(), "");
}

#[test]
fn multibyte_text_is_stored_as_utf8_bytes() {
    let mut seg = SharedMemory::create(String::from("utf8"), 8).unwrap();
    assert!(seg.write_string("é").is_ok());
    assert_eq!(seg.read_data(), vec![0xC3, 0xA9]);
}

#[test]
fn lossy_decoding_replaces_invalid_sequences() {
    let mut seg = SharedMemory::create(String::from("lossy"), 8).unwrap();
    assert!(seg.write_data(&[0x68, 0xFF, 0x41]).is_ok());
    assert_eq!(seg.read_string(), "h\u{FFFD}A");
}

#[test]
fn oversized_text_is_rejected_and_changes_nothing() {
    let mut seg = SharedMemory::create(String::from("tight"), 4).unwrap();
    assert!(seg.write_string("ok").is_ok());
    let r = seg.write_string("way too long");
    assert_eq!(r, Err(ShmError::TooLarge));
    assert_eq!(seg.read_string(), "ok");
}

#[test]
fn text_ending_in_zero_character_is_trimmed() {
    let mut seg = SharedMemory::create(String::from("nul"), 8).unwrap();
    assert!(seg.write_string("ab\0").is_ok());
    assert_eq!(seg.read_string(), "ab");
}
