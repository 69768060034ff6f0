//! How many bytes a FILE_RANGE request is answered with, and in which
//! pieces they leave.

use crate::protocol::{
    CommandHeader, FileRangeHeader, BUFFER_SEGMENT_DATA_SIZE, CMD_ID_FILE_RANGE,
    CMD_TYPE_RESPONSE, MAGIC,
};
use vstd::prelude::*;

verus! {

/// The number of bytes that will be transmitted for a request of
/// `range_size` bytes at `offset` of a file of `file_size` bytes: nothing at
/// or past the end of the file, else the request cut off at the end.
pub open spec fn actual_size(range_size: u32, offset: u64, file_size: u64) -> u32 {
    if offset >= file_size {
        0
    } else if file_size - offset < range_size {
        (file_size - offset) as u32
    } else {
        range_size
    }
}

/// Computes [`actual_size`].
pub fn clamp_range(range_size: u32, offset: u64, file_size: u64) -> (size: u32)
    ensures
        size == actual_size(range_size, offset, file_size),
        offset >= file_size ==> size == 0,
        offset < file_size && offset + range_size > file_size ==> size == file_size - offset,
        offset + range_size <= file_size ==> size == range_size,
{
    if offset >= file_size {
        0
    } else {
        let available: u64 = file_size - offset;
        if available < range_size as u64 {
            available as u32
        } else {
            range_size
        }
    }
}

/// The RESPONSE header that answers a request against a file of
/// `file_size` bytes. Its `data_size` is the number of bytes that will
/// follow, not the number asked for.
pub open spec fn range_response(range_size: u32, offset: u64, file_size: u64) -> CommandHeader {
    CommandHeader {
        magic: MAGIC,
        cmd_type: CMD_TYPE_RESPONSE,
        cmd_id: CMD_ID_FILE_RANGE,
        data_size: actual_size(range_size, offset, file_size),
    }
}

/// Builds the RESPONSE header for `request` against a file of `file_size`
/// bytes.
pub fn respond_to_range(request: &FileRangeHeader, file_size: u64) -> (header: CommandHeader)
    ensures
        header == range_response(request.range_size, request.range_offset, file_size),
        request.range_offset >= file_size ==> header.data_size == 0,
        request.range_offset < file_size && request.range_offset + request.range_size
            > file_size ==> header.data_size == file_size - request.range_offset,
{
    CommandHeader::new(
        CMD_TYPE_RESPONSE,
        CMD_ID_FILE_RANGE,
        clamp_range(request.range_size, request.range_offset, file_size),
    )
}

/// The length of the next piece of a transfer of `size` bytes of which
/// `sent` have left: a full segment, or what remains if that is less.
pub open spec fn chunk_len(size: u32, sent: u32) -> usize {
    if size - sent < BUFFER_SEGMENT_DATA_SIZE {
        if size >= sent {
            (size - sent) as usize
        } else {
            0
        }
    } else {
        BUFFER_SEGMENT_DATA_SIZE
    }
}

/// Computes [`chunk_len`].
pub fn next_chunk_len(size: u32, sent: u32) -> (len: usize)
    ensures
        len == chunk_len(size, sent),
        len <= BUFFER_SEGMENT_DATA_SIZE,
        sent <= size ==> len <= size - sent,
        sent < size ==> len > 0,
{
    if sent >= size {
        0
    } else {
        let rest: u32 = size - sent;
        if rest < 0x100000 {
            rest as usize
        } else {
            BUFFER_SEGMENT_DATA_SIZE
        }
    }
}

} // verus!
