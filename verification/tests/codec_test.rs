use smol::object_file::{DecodeError, SmolFile, Storage, StorageItem};

fn sample_file() -> SmolFile {
    SmolFile {
        storage: Storage {
            total_size: 10,
            items: vec![
                StorageItem { size: 2, offset: 0, init_data: Some(vec![1, 2]) },
                StorageItem { size: 3, offset: 2, init_data: None },
            ],
        },
        instructions: vec![0xEF],
    }
}

#[test]
fn encode_exact_bytes() {
    let bytes = sample_file().encode();
    assert_eq!(
        bytes,
        vec![
            10, 0, // total_size
            0x02, 0x80, // size 2 with init flag
            0x00, 0x00, // offset 0
            1, 2, // init data
            0x03, 0x00, // size 3, no init
            0x02, 0x00, // offset 2
            0xEF, // instructions
        ]
    );
}

#[test]
fn decode_round_trip() {
    let bytes = sample_file().encode();
    let file = SmolFile::decode(&bytes).unwrap();
    assert_eq!(file.storage.total_size, 10);
    assert_eq!(file.storage.items.len(), 2);
    assert_eq!(file.storage.items[0].size, 2);
    assert_eq!(file.storage.items[0].offset, 0);
    assert_eq!(file.storage.items[0].init_data, Some(vec![1, 2]));
    assert_eq!(file.storage.items[1].size, 3);
    assert_eq!(file.storage.items[1].offset, 2);
    assert_eq!(file.storage.items[1].init_data, None);
    assert_eq!(file.instructions, vec![0xEF]);
}

#[test]
fn storage_load_keeps_offsets_raw() {
    // Offsets come back exactly as stored; the machine adds the 0x8000
    // bias only when it loads a file.
    let bytes = vec![4, 0, 0x05, 0x00, 0x07, 0x00, 0xEF];
    let storage = Storage::load(&bytes).unwrap();
    assert_eq!(storage.items.len(), 1);
    assert_eq!(storage.items[0].size, 5);
    assert_eq!(storage.items[0].offset, 7);
}

#[test]
fn decode_truncated_header() {
    let r = SmolFile::decode(&[5]);
    assert!(matches!(r, Err(DecodeError::TruncatedHeader)));
}

#[test]
fn decode_truncated_storage() {
    let r = SmolFile::decode(&[10, 0, 1, 2]);
    assert!(matches!(r, Err(DecodeError::TruncatedStorage)));
}

#[test]
fn decode_truncated_item_header() {
    let r = SmolFile::decode(&[3, 0, 1, 0, 0, 0xEF]);
    assert!(matches!(r, Err(DecodeError::TruncatedItem)));
}

#[test]
fn decode_truncated_init_data() {
    // An item claiming five init bytes inside a four-byte region.
    let r = SmolFile::decode(&[4, 0, 0x05, 0x80, 0x00, 0x00, 0xEF]);
    assert!(matches!(r, Err(DecodeError::TruncatedItem)));
}

#[test]
fn decode_zero_size_item() {
    let r = SmolFile::decode(&[4, 0, 0x00, 0x00, 0x00, 0x00, 0xEF]);
    assert!(matches!(r, Err(DecodeError::ZeroSizeItem)));
}

#[test]
fn decode_empty_instructions() {
    let r = SmolFile::decode(&[0, 0]);
    assert!(matches!(r, Err(DecodeError::EmptyInstructions)));
}

#[test]
fn decode_minimal_file() {
    let file = SmolFile::decode(&[0, 0, 0xB0]).unwrap();
    assert_eq!(file.storage.total_size, 0);
    assert_eq!(file.storage.items.len(), 0);
    assert_eq!(file.instructions, vec![0xB0]);
}
