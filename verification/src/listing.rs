//! The body of a LIST response: one record `name|size\n` per installable
//! file, the size in decimal.

use vstd::prelude::*;
use vstd::utf8::encode_utf8;

verus! {

/// One installable file as the catalogue shows it.
#[derive(Debug, Clone, PartialEq, Eq)]
pub struct CatalogEntry {
    /// The display name that the Switch will ask for.
    pub name: String,
    /// The file's size in bytes.
    pub size: u64,
}

/// ASCII `|`, between a name and its size.
pub const FIELD_SEPARATOR: u8 = 0x7c;

/// ASCII line feed, at the end of each record.
pub const RECORD_TERMINATOR: u8 = 0x0a;

/// The ASCII digits of `n` in base ten, most significant first, without
/// leading zeros.
pub open spec fn decimal_digits(n: nat) -> Seq<u8>
    decreases n,
{
    if n < 10 {
        seq![(0x30 + n) as u8]
    } else {
        decimal_digits(n / 10).push((0x30 + n % 10) as u8)
    }
}

/// The record of one file.
pub open spec fn list_record(name: Seq<char>, size: u64) -> Seq<u8> {
    encode_utf8(name) + seq![FIELD_SEPARATOR] + decimal_digits(size as nat) + seq![
        RECORD_TERMINATOR,
    ]
}

/// The records of `entries`, in their order, one after the other.
pub open spec fn list_body(entries: Seq<CatalogEntry>) -> Seq<u8>
    decreases entries.len(),
{
    if entries.len() == 0 {
        Seq::<u8>::empty()
    } else {
        list_body(entries.drop_last()) + list_record(entries.last().name@, entries.last().size)
    }
}

/// Appends `src` to `out`.
pub(crate) fn append_bytes(out: &mut Vec<u8>, src: &[u8])
    ensures
        final(out)@ == old(out)@ + src@,
{
    let mut i: usize = 0;
    while i < src.len()
        invariant
            i <= src@.len(),
            out@ == old(out)@ + src@.take(i as int),
        decreases src@.len() - i,
    {
        out.push(src[i]);
        i += 1;
        assert(src@.take(i as int) =~= src@.take(i - 1).push(src@[i - 1]));
    }
    assert(src@.take(i as int) =~= src@);
}

/// Appends the decimal digits of `n` to `out`.
pub(crate) fn append_decimal(out: &mut Vec<u8>, n: u64)
    ensures
        final(out)@ == old(out)@ + decimal_digits(n as nat),
    decreases n,
{
    if n >= 10 {
        append_decimal(out, n / 10);
    }
    let digit: u8 = (n % 10) as u8;
    out.push(0x30 + digit);
    assert(out@ =~= old(out)@ + decimal_digits(n as nat));
}

/// Builds the body of a LIST response for the given catalogue.
pub fn build_list_body(entries: &Vec<CatalogEntry>) -> (body: Vec<u8>)
    ensures
        body@ == list_body(entries@),
{
    let mut body: Vec<u8> = Vec::new();
    let mut i: usize = 0;
    while i < entries.len()
        invariant
            i <= entries@.len(),
            body@ == list_body(entries@.take(i as int)),
        decreases entries@.len() - i,
    {
        let ghost before = body@;
        let entry = &entries[i];
        append_bytes(&mut body, entry.name.as_str().as_bytes());
        body.push(FIELD_SEPARATOR);
        append_decimal(&mut body, entry.size);
        body.push(RECORD_TERMINATOR);
        i += 1;
        proof {
            let done = entries@.take(i as int);
            assert(done.drop_last() =~= entries@.take(i - 1));
            assert(done.last() == entries@[i - 1]);
            assert(body@ =~= before + list_record(entry.name@, entry.size));
        }
    }
    assert(entries@.take(i as int) =~= entries@);
    body
}

} // verus!
