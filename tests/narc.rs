use sinjoh::narc::{
    NarcByteOrder, NarcByteOrderError, NarcReader, NarcReaderError, NarcReaderFlags,
};

fn push_u16(v: &mut Vec<u8>, x: u16) {
    v.extend_from_slice(&x.to_le_bytes());
}

fn push_u32(v: &mut Vec<u8>, x: u32) {
    v.extend_from_slice(&x.to_le_bytes());
}

fn sample_archive() -> Vec<u8> {
    let mut v = Vec::new();
    v.extend_from_slice(b"NARC");
    v.extend_from_slice(&[0xFF, 0xFE]);
    push_u16(&mut v, 0x0100);
    push_u32(&mut v, 0x40);
    push_u16(&mut v, 0x10);
    push_u16(&mut v, 3);
    // FATB: two files of 4 bytes at offsets 0 and 4
    push_u32(&mut v, 0x46415442);
    push_u32(&mut v, 28);
    push_u16(&mut v, 2);
    push_u16(&mut v, 0);
    push_u32(&mut v, 0);
    push_u32(&mut v, 4);
    push_u32(&mut v, 4);
    push_u32(&mut v, 8);
    // empty FNTB
    push_u32(&mut v, 0x464E5442);
    push_u32(&mut v, 8);
    // FIMG
    push_u32(&mut v, 0x46494D47);
    push_u32(&mut v, 16);
    v.extend_from_slice(&[0xDE, 0xAD, 0xBE, 0xEF, 0xCA, 0xFE, 0xBA, 0xBE]);
    v
}

#[test]
fn narc_round_trip() {
    let reader = NarcReader::read_from_bytes(sample_archive(), NarcReaderFlags::default()).unwrap();
    assert_eq!(reader.number_of_files(), 2);
    assert_eq!(reader.get_file(0).unwrap(), vec![0xDE, 0xAD, 0xBE, 0xEF]);
    assert_eq!(reader.get_file(1).unwrap(), vec![0xCA, 0xFE, 0xBA, 0xBE]);
    assert_eq!(reader.get_file(2), Err(NarcReaderError::FileNotFound(2)));
    let header = reader.narc_header();
    assert_eq!(header.byte_order, Some(NarcByteOrder::LittleEndian));
    assert_eq!(header.version, 0x0100);
    assert_eq!(header.file_size, 0x40);
    assert_eq!(header.narc_header_size, 0x10);
    assert_eq!(header.number_of_chunks, 3);
    assert_eq!(header.fnt.unwrap().chunk_size, 8);
    assert_eq!(header.files.unwrap().img_position, 60);
}

#[test]
fn narc_member_size_and_repeated_reads() {
    let reader = NarcReader::read_from_bytes(sample_archive(), NarcReaderFlags::default()).unwrap();
    let fat = reader.narc_header().fat.as_ref().unwrap();
    for i in 0..reader.number_of_files() {
        let entry = fat.files[i as usize];
        let first = reader.get_file(i).unwrap();
        let second = reader.get_file(i).unwrap();
        assert_eq!(first.len() as u32, entry.end_address - entry.start_address);
        assert_eq!(first, second);
    }
}

#[test]
fn narc_files_iter_yields_members_in_order() {
    let reader = NarcReader::read_from_bytes(sample_archive(), NarcReaderFlags::default()).unwrap();
    let mut iter = reader.files_iter();
    assert_eq!(iter.next(), Some(Ok(vec![0xDE, 0xAD, 0xBE, 0xEF])));
    assert_eq!(iter.next(), Some(Ok(vec![0xCA, 0xFE, 0xBA, 0xBE])));
    assert_eq!(iter.next(), None);
    assert_eq!(iter.next(), None);
}

#[test]
fn narc_wrong_magic() {
    let mut data = sample_archive();
    data[0] = b'X';
    let r = NarcReader::read_from_bytes(data.clone(), NarcReaderFlags::default());
    assert_eq!(r.err(), Some(NarcReaderError::WrongNarcMagic(0x4352_4158)));
    let skipped = NarcReader::read_from_bytes(data, NarcReaderFlags::new(true, false)).unwrap();
    assert_eq!(skipped.number_of_files(), 2);
}

#[test]
fn narc_unknown_bom() {
    let mut data = sample_archive();
    data[4] = 0x12;
    data[5] = 0x34;
    let r = NarcReader::read_from_bytes(data.clone(), NarcReaderFlags::default());
    assert_eq!(r.err(), Some(NarcReaderError::UnknownBom([0x12, 0x34])));
    let skipped = NarcReader::read_from_bytes(data, NarcReaderFlags::new(false, true)).unwrap();
    assert_eq!(skipped.narc_header().byte_order, None);
    // an unknown order mark reads the version big-endian
    assert_eq!(skipped.narc_header().version, 0x0001);
}

#[test]
fn narc_big_endian_version() {
    let mut data = sample_archive();
    data[4] = 0xFE;
    data[5] = 0xFF;
    let reader = NarcReader::read_from_bytes(data, NarcReaderFlags::default()).unwrap();
    assert_eq!(reader.narc_header().byte_order, Some(NarcByteOrder::BigEndian));
    assert_eq!(reader.narc_header().version, 0x0001);
}

#[test]
fn narc_truncated() {
    let data = sample_archive();
    for cut in [0usize, 3, 5, 15, 20, 30] {
        let r = NarcReader::read_from_bytes(data[..cut].to_vec(), NarcReaderFlags::default());
        assert_eq!(r.err(), Some(NarcReaderError::FileReadError), "cut at {}", cut);
    }
}

#[test]
fn narc_missing_blocks() {
    // only the header, no chunk
    let mut data = sample_archive();
    data[14] = 0;
    let reader = NarcReader::read_from_bytes(data, NarcReaderFlags::default()).unwrap();
    assert_eq!(reader.number_of_files(), 0);
    assert_eq!(reader.get_file(0), Err(NarcReaderError::FatBlockNotFound));

    // FATB only
    let mut data = sample_archive();
    data[14] = 1;
    let reader = NarcReader::read_from_bytes(data, NarcReaderFlags::default()).unwrap();
    assert_eq!(reader.number_of_files(), 2);
    assert_eq!(reader.get_file(0), Err(NarcReaderError::FimgBlockNotFound));
}

#[test]
fn narc_member_past_end() {
    let mut data = sample_archive();
    // second member ends past the image block
    data[40] = 0x40;
    let reader = NarcReader::read_from_bytes(data, NarcReaderFlags::default()).unwrap();
    assert_eq!(reader.get_file(1), Err(NarcReaderError::FileReadError));
}

#[test]
fn byte_order_from_bom() {
    assert_eq!(NarcByteOrder::from_bom(&[0xFE, 0xFF]), Ok(NarcByteOrder::BigEndian));
    assert_eq!(NarcByteOrder::from_bom(&[0xFF, 0xFE]), Ok(NarcByteOrder::LittleEndian));
    assert_eq!(NarcByteOrder::from_bom(&[0, 0]), Err(NarcByteOrderError::InvalidBom([0, 0])));
}
