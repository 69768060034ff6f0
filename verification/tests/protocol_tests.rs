use switchlink::protocol::{
    CommandHeader, FileRangeHeader, ProtocolError, BUFFER_SEGMENT_DATA_SIZE, CMD_ID_EXIT,
    CMD_ID_FILE_RANGE, CMD_ID_LIST, CMD_ID_LIST_OLD, CMD_TYPE_ACK, CMD_TYPE_REQUEST,
    CMD_TYPE_RESPONSE, MAGIC, MAX_PLAUSIBLE_OFFSET,
};

fn range_request(range_size: u32, range_offset: u64, name: &[u8]) -> Vec<u8> {
    let mut bytes = Vec::new();
    bytes.extend_from_slice(&range_size.to_le_bytes());
    bytes.extend_from_slice(&range_offset.to_le_bytes());
    bytes.extend_from_slice(&(name.len() as u32).to_le_bytes());
    bytes.extend_from_slice(name);
    bytes
}

#[test]
fn constants_have_their_wire_values() {
    assert_eq!(CMD_ID_EXIT, 0);
    assert_eq!(CMD_ID_LIST_OLD, 1);
    assert_eq!(CMD_ID_FILE_RANGE, 2);
    assert_eq!(CMD_ID_LIST, 3);
    assert_eq!(CMD_TYPE_REQUEST, 0);
    assert_eq!(CMD_TYPE_RESPONSE, 1);
    assert_eq!(CMD_TYPE_ACK, 2);
    assert_eq!(BUFFER_SEGMENT_DATA_SIZE, 1024 * 1024);
    assert_eq!(&MAGIC, b"DBI0");
    assert_eq!(MAX_PLAUSIBLE_OFFSET, 100 * 1024 * 1024 * 1024);
}

#[test]
fn new_header_carries_the_magic() {
    let header = CommandHeader::new(CMD_TYPE_ACK, CMD_ID_FILE_RANGE, 24);
    assert_eq!(
        header,
        CommandHeader { magic: *b"DBI0", cmd_type: 2, cmd_id: 2, data_size: 24 }
    );
}

#[test]
fn header_encodes_to_sixteen_little_endian_bytes() {
    let header = CommandHeader::new(CMD_TYPE_REQUEST, CMD_ID_LIST, 0);
    assert_eq!(
        header.to_bytes(),
        vec![0x44, 0x42, 0x49, 0x30, 0, 0, 0, 0, 3, 0, 0, 0, 0, 0, 0, 0]
    );
}

#[test]
fn header_fields_are_written_least_significant_byte_first() {
    let bytes = CommandHeader::new(0x0403_0201, 0x0807_0605, 0x0c0b_0a09).to_bytes();
    assert_eq!(
        bytes,
        vec![0x44, 0x42, 0x49, 0x30, 1, 2, 3, 4, 5, 6, 7, 8, 9, 10, 11, 12]
    );
}

#[test]
fn header_leaves_with_the_literal_magic_whatever_the_field_holds() {
    let header = CommandHeader { magic: [0, 0, 0, 0], cmd_type: 1, cmd_id: 0, data_size: 0 };
    let bytes = header.to_bytes();
    assert_eq!(&bytes[..4], &[0x44, 0x42, 0x49, 0x30]);
    assert_eq!(bytes, vec![0x44, 0x42, 0x49, 0x30, 1, 0, 0, 0, 0, 0, 0, 0, 0, 0, 0, 0]);
    assert_eq!(CommandHeader::from_bytes(&bytes), Ok(CommandHeader::new(1, 0, 0)));
}

#[test]
fn header_round_trips() {
    let header = CommandHeader::new(2, 2, 0x0102_0304);
    let bytes = header.to_bytes();
    assert_eq!(bytes.len(), 16);
    assert_eq!(&bytes[12..], &[4, 3, 2, 1]);
    assert_eq!(CommandHeader::from_bytes(&bytes), Ok(header));
}

#[test]
fn header_round_trips_at_the_extremes() {
    for header in [
        CommandHeader::new(0, 0, 0),
        CommandHeader::new(u32::MAX, u32::MAX, u32::MAX),
        CommandHeader::new(1, 3, 15),
        CommandHeader::new(0x8000_0000, 0x00ff_00ff, 0x7fff_ffff),
    ] {
        assert_eq!(CommandHeader::from_bytes(&header.to_bytes()), Ok(header));
    }
}

#[test]
fn header_decodes_the_list_command_of_the_switch() {
    let bytes = [0x44, 0x42, 0x49, 0x30, 0, 0, 0, 0, 3, 0, 0, 0, 0, 0, 0, 0];
    let header = CommandHeader::from_bytes(&bytes).unwrap();
    assert_eq!(header.magic, MAGIC);
    assert_eq!(header.cmd_type, CMD_TYPE_REQUEST);
    assert_eq!(header.cmd_id, CMD_ID_LIST);
    assert_eq!(header.data_size, 0);
}

#[test]
fn header_decoding_reads_each_field_from_its_own_bytes() {
    let bytes = [0x44, 0x42, 0x49, 0x30, 1, 2, 3, 4, 5, 6, 7, 8, 9, 10, 11, 12];
    let header = CommandHeader::from_bytes(&bytes).unwrap();
    assert_eq!(header.cmd_type, 0x0403_0201);
    assert_eq!(header.cmd_id, 0x0807_0605);
    assert_eq!(header.data_size, 0x0c0b_0a09);
}

#[test]
fn header_decoding_ignores_bytes_after_the_sixteenth() {
    let mut bytes = CommandHeader::new(1, 2, 3).to_bytes();
    bytes.extend_from_slice(&[0xff; 8]);
    assert_eq!(CommandHeader::from_bytes(&bytes), Ok(CommandHeader::new(1, 2, 3)));
}

#[test]
fn header_with_wrong_magic_is_refused() {
    for at in 0..4 {
        let mut bytes = CommandHeader::new(0, 0, 0).to_bytes();
        bytes[at] ^= 0x01;
        assert_eq!(CommandHeader::from_bytes(&bytes), Err(ProtocolError::InvalidMagic));
    }
    assert_eq!(CommandHeader::from_bytes(&[0u8; 16]), Err(ProtocolError::InvalidMagic));
}

#[test]
fn short_header_is_refused() {
    let bytes = CommandHeader::new(0, 0, 0).to_bytes();
    assert_eq!(CommandHeader::from_bytes(&bytes[..15]), Err(ProtocolError::InvalidHeaderSize));
    assert_eq!(CommandHeader::from_bytes(&[]), Err(ProtocolError::InvalidHeaderSize));
}

#[test]
fn range_request_decodes() {
    let bytes = range_request(1_048_576, 0, b"game.nsp");
    assert_eq!(bytes.len(), 24);
    assert_eq!(
        FileRangeHeader::from_bytes(&bytes),
        Ok(FileRangeHeader {
            range_size: 1_048_576,
            range_offset: 0,
            nsp_name_len: 8,
            nsp_name: "game.nsp".to_string(),
        })
    );
}

#[test]
fn range_request_reads_a_sixty_four_bit_offset() {
    let bytes = range_request(7, 0x12_3456_789a, b"a");
    let header = FileRangeHeader::from_bytes(&bytes).unwrap();
    assert_eq!(header.range_size, 7);
    assert_eq!(header.range_offset, 0x12_3456_789a);
    assert_eq!(header.nsp_name, "a");
}

#[test]
fn range_request_with_an_empty_name_decodes() {
    let header = FileRangeHeader::from_bytes(&range_request(1, 2, b"")).unwrap();
    assert_eq!(header.nsp_name_len, 0);
    assert_eq!(header.nsp_name, "");
}

#[test]
fn range_request_keeps_a_name_that_is_not_ascii() {
    let name = "jeu é.nsp";
    let header = FileRangeHeader::from_bytes(&range_request(1, 2, name.as_bytes())).unwrap();
    assert_eq!(header.nsp_name_len as usize, name.len());
    assert_eq!(header.nsp_name, name);
}

#[test]
fn range_request_ignores_bytes_after_the_name() {
    let mut bytes = range_request(5, 6, b"game.nsp");
    bytes.extend_from_slice(b"trailing");
    assert_eq!(FileRangeHeader::from_bytes(&bytes).unwrap().nsp_name, "game.nsp");
}

#[test]
fn offset_of_one_hundred_gibibytes_is_taken_as_sent() {
    let bytes = range_request(1, MAX_PLAUSIBLE_OFFSET, b"a");
    assert_eq!(FileRangeHeader::from_bytes(&bytes).unwrap().range_offset, 107_374_182_400);
}

#[test]
fn offset_beyond_one_hundred_gibibytes_falls_back_to_its_low_half() {
    let bytes = range_request(1, MAX_PLAUSIBLE_OFFSET + 1, b"a");
    assert_eq!(FileRangeHeader::from_bytes(&bytes).unwrap().range_offset, 1);
    let bytes = range_request(1, 0xdead_beef_0012_d687, b"a");
    assert_eq!(FileRangeHeader::from_bytes(&bytes).unwrap().range_offset, 0x0012_d687);
    let bytes = range_request(1, u64::MAX, b"a");
    assert_eq!(FileRangeHeader::from_bytes(&bytes).unwrap().range_offset, 0xffff_ffff);
}

#[test]
fn range_request_shorter_than_its_fixed_part_is_refused() {
    let bytes = range_request(1, 2, b"");
    assert_eq!(
        FileRangeHeader::from_bytes(&bytes[..15]),
        Err(ProtocolError::InvalidRangeHeaderSize)
    );
    assert_eq!(FileRangeHeader::from_bytes(&[]), Err(ProtocolError::InvalidRangeHeaderSize));
}

#[test]
fn range_request_shorter_than_its_name_is_refused() {
    let bytes = range_request(1, 2, b"game.nsp");
    for len in 16..24 {
        assert_eq!(
            FileRangeHeader::from_bytes(&bytes[..len]),
            Err(ProtocolError::NameExceedsData)
        );
    }
    assert!(FileRangeHeader::from_bytes(&bytes[..24]).is_ok());
}

#[test]
fn range_request_with_a_huge_name_length_is_refused() {
    let mut bytes = range_request(1, 2, b"game.nsp");
    bytes[12..16].copy_from_slice(&u32::MAX.to_le_bytes());
    assert_eq!(FileRangeHeader::from_bytes(&bytes), Err(ProtocolError::NameExceedsData));
}

#[test]
fn range_request_with_a_name_that_is_not_utf8_is_refused() {
    let bytes = range_request(1, 2, &[0x67, 0xff, 0x6d]);
    assert_eq!(FileRangeHeader::from_bytes(&bytes), Err(ProtocolError::InvalidName));
    let bytes = range_request(1, 2, &[0xc3]);
    assert_eq!(FileRangeHeader::from_bytes(&bytes), Err(ProtocolError::InvalidName));
}
