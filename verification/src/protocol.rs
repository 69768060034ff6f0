//! Wire structures of the protocol and their little-endian encoding.

use crate::buffer::{
    bytes_mut_put_slice, bytes_mut_put_u32_le, bytes_mut_to_vec, bytes_mut_with_capacity,
    slice_get_u32_le, string_from_utf8, u32_from_le, u32_le_bytes,
};
use vstd::prelude::*;
use vstd::slice::{slice_subrange, slice_to_vec};
use vstd::utf8::{decode_utf8, valid_utf8};

verus! {

/// Command id: end the session.
pub const CMD_ID_EXIT: u32 = 0;

/// Command id: legacy catalogue request (not served).
pub const CMD_ID_LIST_OLD: u32 = 1;

/// Command id: request for a byte range of a named file.
pub const CMD_ID_FILE_RANGE: u32 = 2;

/// Command id: request for the catalogue of installable files.
pub const CMD_ID_LIST: u32 = 3;

/// Command type: a request from the Switch.
pub const CMD_TYPE_REQUEST: u32 = 0;

/// Command type: the host's answer to a request.
pub const CMD_TYPE_RESPONSE: u32 = 1;

/// Command type: "ready to receive the payload you announced".
pub const CMD_TYPE_ACK: u32 = 2;

/// Largest number of file bytes carried by one bulk write.
pub const BUFFER_SEGMENT_DATA_SIZE: usize = 0x100000;

/// The four bytes that open every command header: ASCII `DBI0`.
pub const MAGIC: [u8; 4] = [0x44, 0x42, 0x49, 0x30];

/// The 16-byte frame that precedes every transaction on the wire.
///
/// `magic` holds what was decoded or what [`CommandHeader::new`] put there.
/// Encoding does not read it: a header always leaves with the protocol's
/// magic.
#[derive(Debug, Clone, Copy, PartialEq, Eq)]
pub struct CommandHeader {
    pub magic: [u8; 4],
    pub cmd_type: u32,
    pub cmd_id: u32,
    pub data_size: u32,
}

impl CommandHeader {
    /// A header is valid when it carries the protocol's magic bytes.
    pub open spec fn is_valid(self) -> bool {
        self.magic@ == MAGIC@
    }

    pub fn new(cmd_type: u32, cmd_id: u32, data_size: u32) -> (header: Self)
        ensures
            header.magic == MAGIC,
            header.cmd_type == cmd_type,
            header.cmd_id == cmd_id,
            header.data_size == data_size,
            header.is_valid(),
    {
        CommandHeader { magic: MAGIC, cmd_type, cmd_id, data_size }
    }
}

/// Why a buffer was refused by one of the decoders.
#[derive(Debug, Clone, Copy, PartialEq, Eq, Structural)]
pub enum ProtocolError {
    /// Fewer than 16 bytes where a command header was expected.
    InvalidHeaderSize,
    /// The first four bytes are not `DBI0`.
    InvalidMagic,
    /// Fewer than 16 bytes where a file-range request was expected.
    InvalidRangeHeaderSize,
    /// The declared name length runs past the end of the buffer.
    NameExceedsData,
    /// The name bytes are not UTF-8.
    InvalidName,
}

/// What a buffer decodes to as a command header.
pub open spec fn parse_command_header(data: Seq<u8>) -> Result<CommandHeader, ProtocolError> {
    if data.len() < 16 {
        Err(ProtocolError::InvalidHeaderSize)
    } else if data.subrange(0, 4) != MAGIC@ {
        Err(ProtocolError::InvalidMagic)
    } else {
        Ok(
            CommandHeader {
                magic: MAGIC,
                cmd_type: u32_from_le(data.subrange(4, 8)),
                cmd_id: u32_from_le(data.subrange(8, 12)),
                data_size: u32_from_le(data.subrange(12, 16)),
            },
        )
    }
}

impl CommandHeader {
    /// The 16 bytes of this header on the wire: the protocol's magic, then
    /// the three fields. The magic is the literal one, whatever the `magic`
    /// field holds.
    pub open spec fn wire(self) -> Seq<u8> {
        MAGIC@ + u32_le_bytes(self.cmd_type) + u32_le_bytes(self.cmd_id) + u32_le_bytes(
            self.data_size,
        )
    }

    pub fn to_bytes(&self) -> (out: Vec<u8>)
        ensures
            out@ == self.wire(),
            out@.len() == 16,
            out@.subrange(0, 4) == MAGIC@,
    {
        let magic = MAGIC;
        let mut buf = bytes_mut_with_capacity(16);
        bytes_mut_put_slice(&mut buf, magic.as_slice());
        bytes_mut_put_u32_le(&mut buf, self.cmd_type);
        bytes_mut_put_u32_le(&mut buf, self.cmd_id);
        bytes_mut_put_u32_le(&mut buf, self.data_size);
        let out = bytes_mut_to_vec(&buf);
        assert(out@.subrange(0, 4) =~= MAGIC@);
        out
    }

    pub fn from_bytes(data: &[u8]) -> (result: Result<Self, ProtocolError>)
        ensures
            result == parse_command_header(data@),
            data@.len() < 16 ==> result == Err::<Self, ProtocolError>(
                ProtocolError::InvalidHeaderSize,
            ),
            data@.len() >= 16 && data@.subrange(0, 4) != MAGIC@ ==> result == Err::<
                Self,
                ProtocolError,
            >(ProtocolError::InvalidMagic),
            result is Ok ==> result->Ok_0.is_valid(),
    {
        if data.len() < 16 {
            return Err(ProtocolError::InvalidHeaderSize);
        }
        if data[0] != MAGIC[0] || data[1] != MAGIC[1] || data[2] != MAGIC[2] || data[3]
            != MAGIC[3] {
            assert(data@.subrange(0, 4)[0] == data@[0]);
            assert(data@.subrange(0, 4)[1] == data@[1]);
            assert(data@.subrange(0, 4)[2] == data@[2]);
            assert(data@.subrange(0, 4)[3] == data@[3]);
            return Err(ProtocolError::InvalidMagic);
        }
        assert(data@.subrange(0, 4) =~= MAGIC@);
        let cmd_type = slice_get_u32_le(slice_subrange(data, 4, 16));
        let cmd_id = slice_get_u32_le(slice_subrange(data, 8, 16));
        let data_size = slice_get_u32_le(slice_subrange(data, 12, 16));
        assert(data@.subrange(4, 16).subrange(0, 4) =~= data@.subrange(4, 8));
        assert(data@.subrange(8, 16).subrange(0, 4) =~= data@.subrange(8, 12));
        assert(data@.subrange(12, 16).subrange(0, 4) =~= data@.subrange(12, 16));
        Ok(CommandHeader { magic: MAGIC, cmd_type, cmd_id, data_size })
    }
}

/// Reading back the four little-endian bytes of a number gives the number.
pub proof fn lemma_u32_le_round_trip(x: u32)
    ensures
        u32_le_bytes(x).len() == 4,
        u32_from_le(u32_le_bytes(x)) == x,
{
}

/// Encoding a valid command header and decoding the 16 bytes gives the
/// identical record.
pub proof fn lemma_command_header_round_trip(header: CommandHeader)
    requires
        header.is_valid(),
    ensures
        header.wire().len() == 16,
        parse_command_header(header.wire()) == Ok::<CommandHeader, ProtocolError>(header),
{
    let w = header.wire();
    lemma_u32_le_round_trip(header.cmd_type);
    lemma_u32_le_round_trip(header.cmd_id);
    lemma_u32_le_round_trip(header.data_size);
    assert(w.subrange(0, 4) =~= MAGIC@);
    assert(w.subrange(4, 8) =~= u32_le_bytes(header.cmd_type));
    assert(w.subrange(8, 12) =~= u32_le_bytes(header.cmd_id));
    assert(w.subrange(12, 16) =~= u32_le_bytes(header.data_size));
    assert(header.magic =~= MAGIC);
}

/// The largest offset that is taken as sent: 100 GiB. A larger value in the
/// 64-bit field is read again as a 32-bit offset.
pub const MAX_PLAUSIBLE_OFFSET: u64 = 0x19_0000_0000;

/// The value of eight bytes read as a little-endian unsigned integer.
pub open spec fn u64_from_le(b: Seq<u8>) -> u64
    recommends
        b.len() == 8,
{
    (u32_from_le(b.subrange(0, 4)) as int + u32_from_le(b.subrange(4, 8)) as int
        * 0x1_0000_0000) as u64
}

/// The offset that a request asks for, given the 64-bit field as sent: the
/// field itself up to 100 GiB, its low 32 bits beyond.
pub open spec fn effective_offset(raw: u64) -> u64 {
    if raw > MAX_PLAUSIBLE_OFFSET {
        (raw as int % 0x1_0000_0000) as u64
    } else {
        raw
    }
}

/// The body of a FILE_RANGE command: which bytes of which file the Switch
/// asks for.
#[derive(Debug, Clone, PartialEq, Eq)]
pub struct FileRangeHeader {
    pub range_size: u32,
    pub range_offset: u64,
    pub nsp_name_len: u32,
    pub nsp_name: String,
}

/// A file-range request as a mathematical value.
pub struct FileRangeRequest {
    pub range_size: u32,
    pub range_offset: u64,
    pub nsp_name_len: u32,
    pub nsp_name: Seq<char>,
}

impl View for FileRangeHeader {
    type V = FileRangeRequest;

    open spec fn view(&self) -> FileRangeRequest {
        FileRangeRequest {
            range_size: self.range_size,
            range_offset: self.range_offset,
            nsp_name_len: self.nsp_name_len,
            nsp_name: self.nsp_name@,
        }
    }
}

/// What a buffer decodes to as a file-range request.
pub open spec fn parse_file_range(data: Seq<u8>) -> Result<FileRangeRequest, ProtocolError> {
    if data.len() < 16 {
        Err(ProtocolError::InvalidRangeHeaderSize)
    } else {
        let name_len = u32_from_le(data.subrange(12, 16));
        if data.len() < 16 + name_len {
            Err(ProtocolError::NameExceedsData)
        } else {
            let name = data.subrange(16, 16 + name_len);
            if !valid_utf8(name) {
                Err(ProtocolError::InvalidName)
            } else {
                Ok(
                    FileRangeRequest {
                        range_size: u32_from_le(data.subrange(0, 4)),
                        range_offset: effective_offset(u64_from_le(data.subrange(4, 12))),
                        nsp_name_len: name_len,
                        nsp_name: decode_utf8(name),
                    },
                )
            }
        }
    }
}

/// Reads the four bytes at `at` as a little-endian integer.
fn read_u32_le(data: &[u8], at: usize) -> (value: u32)
    requires
        at + 4 <= data@.len(),
    ensures
        value == u32_from_le(data@.subrange(at as int, at + 4)),
{
    let b0 = data[at] as u32;
    let b1 = data[at + 1] as u32;
    let b2 = data[at + 2] as u32;
    let b3 = data[at + 3] as u32;
    b0 + b1 * 0x100 + b2 * 0x1_0000 + b3 * 0x100_0000
}

impl FileRangeHeader {
    pub fn from_bytes(data: &[u8]) -> (result: Result<Self, ProtocolError>)
        ensures
            match result {
                Ok(header) => parse_file_range(data@) == Ok::<FileRangeRequest, ProtocolError>(
                    header@,
                ),
                Err(error) => parse_file_range(data@) == Err::<FileRangeRequest, ProtocolError>(
                    error,
                ),
            },
            data@.len() < 16 ==> result is Err,
            data@.len() >= 16 && data@.len() < 16 + u32_from_le(data@.subrange(12, 16))
                ==> result is Err,
    {
        if data.len() < 16 {
            return Err(ProtocolError::InvalidRangeHeaderSize);
        }
        let range_size = read_u32_le(data, 0);
        let low = read_u32_le(data, 4);
        let high = read_u32_le(data, 8);
        let raw: u64 = low as u64 + high as u64 * 0x1_0000_0000;
        let range_offset: u64 = if raw > MAX_PLAUSIBLE_OFFSET {
            low as u64
        } else {
            raw
        };
        let nsp_name_len = read_u32_le(data, 12);
        proof {
            let field = data@.subrange(4, 12);
            assert(field.subrange(0, 4) =~= data@.subrange(4, 8));
            assert(field.subrange(4, 8) =~= data@.subrange(8, 12));
        }
        if (data.len() as u64) < 16u64 + nsp_name_len as u64 {
            return Err(ProtocolError::NameExceedsData);
        }
        let end: usize = 16 + nsp_name_len as usize;
        let name_bytes = slice_to_vec(slice_subrange(data, 16, end));
        match string_from_utf8(name_bytes) {
            Some(nsp_name) => Ok(
                FileRangeHeader { range_size, range_offset, nsp_name_len, nsp_name },
            ),
            None => Err(ProtocolError::InvalidName),
        }
    }
}

} // verus!
