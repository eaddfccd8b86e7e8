use cartridge_reader::CartridgeReader;

#[test]
fn new_reader_holds_zeros() {
    let reader = CartridgeReader::new();
    assert_eq!(reader.image().len(), 65536);
    assert!(reader.image().iter().all(|&byte| byte == 0));
}

#[test]
fn short_data_leaves_zeros_behind_it() {
    let data: Vec<u8> = (0..0x150u32).map(|i| (i % 251) as u8 + 1).collect();
    let mut reader = CartridgeReader::new();
    reader.load_memory(&data);
    assert_eq!(reader.image().len(), 65536);
    assert_eq!(&reader.image()[..0x150], &data[..]);
    assert!(reader.image()[0x150..].iter().all(|&byte| byte == 0));
}

#[test]
fn empty_data_changes_nothing() {
    let mut reader = CartridgeReader::new();
    reader.load_memory(&[]);
    assert!(reader.image().iter().all(|&byte| byte == 0));
}

#[test]
fn one_byte_is_loaded_at_offset_zero() {
    let mut reader = CartridgeReader::new();
    reader.load_memory(&[0xAB]);
    assert_eq!(reader.image()[0], 0xAB);
    assert!(reader.image()[1..].iter().all(|&byte| byte == 0));
}

#[test]
fn data_of_full_length_fills_the_buffer() {
    let data: Vec<u8> = (0..65536u32).map(|i| (i % 253) as u8).collect();
    let mut reader = CartridgeReader::new();
    reader.load_memory(&data);
    assert_eq!(reader.image(), &data[..]);
}

#[test]
fn longer_data_is_cut_at_the_capacity() {
    let data: Vec<u8> = (0..70000u32).map(|i| (i % 253) as u8).collect();
    let mut reader = CartridgeReader::new();
    reader.load_memory(&data);
    assert_eq!(reader.image().len(), 65536);
    assert_eq!(reader.image(), &data[..65536]);
}

#[test]
fn second_load_keeps_what_lies_behind_it() {
    let mut reader = CartridgeReader::new();
    reader.load_memory(&[1, 2, 3, 4, 5, 6]);
    reader.load_memory(&[9, 8]);
    assert_eq!(&reader.image()[..8], &[9, 8, 3, 4, 5, 6, 0, 0]);
}

#[test]
fn loading_the_same_data_again_changes_nothing() {
    let data: Vec<u8> = (0..1000u32).map(|i| (i % 7) as u8).collect();
    let mut reader = CartridgeReader::new();
    reader.load_memory(&data);
    let first: Vec<u8> = reader.image().to_vec();
    reader.load_memory(&data);
    assert_eq!(reader.image(), &first[..]);
}
