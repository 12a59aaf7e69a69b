//! The table of device-tree overlays in a DTBO image, and the overlay that a
//! guest with passed-through devices is given.
//!
//! The image starts with a header of eight big-endian 32-bit fields. The
//! header tells where the table of entries starts, how many entries it has and
//! how large each is; an entry, of eight big-endian 32-bit fields too, tells
//! where its overlay lies in the image and how long it is. Offsets count from
//! the start of the header.

use crate::error::ErrorKind;
use crate::text::{decimal, decimal_digits, parse_decimal, parse_unsigned};
use vstd::prelude::*;
use vstd::slice::*;
use vstd::string::*;

verus! {

/// What the header of every DTBO image starts with.
pub const DT_TABLE_MAGIC: u32 = 0xd7b7ab1e;

/// The size of the header, in bytes.
pub const DT_TABLE_HEADER_SIZE: usize = 32;

/// The size of what is read of an entry, in bytes.
pub const DT_TABLE_ENTRY_SIZE: usize = 32;

/// The header of the table.
#[derive(Clone, Copy, Debug, PartialEq, Eq)]
pub struct DtTableHeader {
    pub magic: u32,
    /// The size of the header, the entries and the overlays together.
    pub total_size: u32,
    pub header_size: u32,
    pub dt_entry_size: u32,
    pub dt_entry_count: u32,
    /// Where the first entry starts.
    pub dt_entries_offset: u32,
    /// The size of a flash page, as the image assumes it.
    pub page_size: u32,
    pub version: u32,
}

/// An entry of the table.
#[derive(Clone, Copy, Debug, PartialEq, Eq)]
pub struct DtTableEntry {
    /// The size of the overlay.
    pub dt_size: u32,
    /// Where the overlay starts.
    pub dt_offset: u32,
    /// Optional; zero where unused.
    pub id: u32,
    /// Optional; zero where unused.
    pub rev: u32,
    /// Optional; zero where unused.
    pub custom: [u32; 4],
}

/// A failure to find an overlay in a DTBO image.
#[derive(Clone, Copy, Debug, PartialEq, Eq)]
pub enum DtboError {
    /// The header is not 32 bytes long, does not start with the magic number
    /// or states another size than 32 for itself.
    CorruptHeader,
    /// What was read of the entry of this index is not 32 bytes long.
    CorruptEntry { index: u32 },
    /// The table has `count` entries, and so none of this index.
    IndexOutOfRange { index: u32, count: u32 },
    /// Where the entry starts does not fit 32 bits.
    ArithmeticOverflow,
    /// The image ends before `size` bytes from `offset` on are read.
    ShortRead { offset: u64, size: u64 },
    /// The index of the overlay is no decimal numeral of 32 bits.
    InvalidIndex,
}

impl DtboError {
    pub open spec fn spec_kind(&self) -> ErrorKind {
        match self {
            DtboError::CorruptHeader => ErrorKind::MalformedInput,
            DtboError::CorruptEntry { .. } => ErrorKind::MalformedInput,
            DtboError::IndexOutOfRange { .. } => ErrorKind::MalformedInput,
            DtboError::ArithmeticOverflow => ErrorKind::ArithmeticOverflow,
            DtboError::ShortRead { .. } => ErrorKind::IoFailure,
            DtboError::InvalidIndex => ErrorKind::MalformedInput,
        }
    }

    /// The class this failure falls under.
    #[verifier::when_used_as_spec(spec_kind)]
    pub fn kind(&self) -> (k: ErrorKind)
        ensures
            k == self.spec_kind(),
    {
        match self {
            DtboError::CorruptHeader => ErrorKind::MalformedInput,
            DtboError::CorruptEntry { .. } => ErrorKind::MalformedInput,
            DtboError::IndexOutOfRange { .. } => ErrorKind::MalformedInput,
            DtboError::ArithmeticOverflow => ErrorKind::ArithmeticOverflow,
            DtboError::ShortRead { .. } => ErrorKind::IoFailure,
            DtboError::InvalidIndex => ErrorKind::MalformedInput,
        }
    }
}

/// What a failure says of itself.
pub open spec fn dtbo_message_text(e: DtboError) -> Seq<char> {
    match e {
        DtboError::CorruptHeader => "DtTableHeader is invalid"@,
        DtboError::CorruptEntry { index } => "DtTableEntry at index "@ + decimal_digits(
            index as nat,
        ) + " is invalid."@,
        DtboError::IndexOutOfRange { index, count } => "Invalid dtbo index "@ + decimal_digits(
            index as nat,
        ),
        DtboError::ArithmeticOverflow => "Unexpected arithmetic result"@,
        DtboError::ShortRead { offset, size } => "Failed to read "@ + decimal_digits(size as nat)
            + " bytes at offset "@ + decimal_digits(offset as nat),
        DtboError::InvalidIndex => "vm_dtbo_idx is not an integer"@,
    }
}

impl DtboError {
    /// What the failure says of itself.
    pub fn message(&self) -> (text: String)
        ensures
            text@ == dtbo_message_text(*self),
    {
        match self {
            DtboError::CorruptHeader => String::from_str("DtTableHeader is invalid"),
            DtboError::CorruptEntry { index } => String::from_str("DtTableEntry at index ").concat(
                decimal(*index as u64).as_str(),
            ).concat(" is invalid."),
            DtboError::IndexOutOfRange { index, count } => String::from_str(
                "Invalid dtbo index ",
            ).concat(decimal(*index as u64).as_str()),
            DtboError::ArithmeticOverflow => String::from_str("Unexpected arithmetic result"),
            DtboError::ShortRead { offset, size } => String::from_str("Failed to read ").concat(
                decimal(*size).as_str(),
            ).concat(" bytes at offset ").concat(decimal(*offset).as_str()),
            DtboError::InvalidIndex => String::from_str("vm_dtbo_idx is not an integer"),
        }
    }
}

/// The number that four bytes stand for, the most significant first.
pub open spec fn be_value(b0: u8, b1: u8, b2: u8, b3: u8) -> u32 {
    (b0 as int * 0x100_0000 + b1 as int * 0x1_0000 + b2 as int * 0x100 + b3 as int) as u32
}

/// The big-endian 32-bit number at `at` in `bytes`.
pub open spec fn be_u32(bytes: Seq<u8>, at: int) -> u32 {
    be_value(bytes[at], bytes[at + 1], bytes[at + 2], bytes[at + 3])
}

/// The header that 32 bytes hold, field by field.
pub open spec fn decoded_header(bytes: Seq<u8>) -> DtTableHeader {
    DtTableHeader {
        magic: be_u32(bytes, 0),
        total_size: be_u32(bytes, 4),
        header_size: be_u32(bytes, 8),
        dt_entry_size: be_u32(bytes, 12),
        dt_entry_count: be_u32(bytes, 16),
        dt_entries_offset: be_u32(bytes, 20),
        page_size: be_u32(bytes, 24),
        version: be_u32(bytes, 28),
    }
}

/// The entry that 32 bytes hold, field by field.
pub open spec fn decoded_entry(bytes: Seq<u8>) -> DtTableEntry {
    DtTableEntry {
        dt_size: be_u32(bytes, 0),
        dt_offset: be_u32(bytes, 4),
        id: be_u32(bytes, 8),
        rev: be_u32(bytes, 12),
        custom: [be_u32(bytes, 16), be_u32(bytes, 20), be_u32(bytes, 24), be_u32(bytes, 28)],
    }
}

/// The header that `bytes` holds: they are 32, start with the magic number,
/// and the header they hold states 32 as its own size.
pub open spec fn parsed_header(bytes: Seq<u8>) -> Result<DtTableHeader, DtboError> {
    if bytes.len() == DT_TABLE_HEADER_SIZE && be_u32(bytes, 0) == DT_TABLE_MAGIC && be_u32(
        bytes,
        8,
    ) == DT_TABLE_HEADER_SIZE {
        Ok(decoded_header(bytes))
    } else {
        Err(DtboError::CorruptHeader)
    }
}

/// Where the entry of this index starts: behind the entries before it, where
/// the table has such an entry and 32 bits hold the offset.
pub open spec fn entry_offset(header: DtTableHeader, index: u32) -> Result<u32, DtboError> {
    if index >= header.dt_entry_count {
        Err(DtboError::IndexOutOfRange { index, count: header.dt_entry_count })
    } else if header.dt_entries_offset + header.dt_entry_size * index > u32::MAX {
        Err(DtboError::ArithmeticOverflow)
    } else {
        Ok((header.dt_entries_offset + header.dt_entry_size * index) as u32)
    }
}

/// The entry that `bytes` holds, read as the entry of this index.
pub open spec fn parsed_entry(bytes: Seq<u8>, index: u32) -> Result<DtTableEntry, DtboError> {
    if bytes.len() == DT_TABLE_ENTRY_SIZE {
        Ok(decoded_entry(bytes))
    } else {
        Err(DtboError::CorruptEntry { index })
    }
}

/// The `size` bytes of `image` from `offset` on.
pub open spec fn read_at(image: Seq<u8>, size: int, offset: int) -> Result<Seq<u8>, DtboError> {
    if offset + size <= image.len() {
        Ok(image.subrange(offset, offset + size))
    } else {
        Err(DtboError::ShortRead { offset: offset as u64, size: size as u64 })
    }
}

/// The header of an image: its first 32 bytes, checked.
pub open spec fn header_of(image: Seq<u8>) -> Result<DtTableHeader, DtboError> {
    match read_at(image, DT_TABLE_HEADER_SIZE as int, 0) {
        Err(e) => Err(e),
        Ok(bytes) => parsed_header(bytes),
    }
}

/// The entry of this index in an image with this header.
pub open spec fn entry_of(image: Seq<u8>, header: DtTableHeader, index: u32) -> Result<
    DtTableEntry,
    DtboError,
> {
    match entry_offset(header, index) {
        Err(e) => Err(e),
        Ok(offset) => match read_at(image, DT_TABLE_ENTRY_SIZE as int, offset as int) {
            Err(e) => Err(e),
            Ok(bytes) => parsed_entry(bytes, index),
        },
    }
}

/// The overlay that an entry points to, byte for byte.
pub open spec fn overlay_of(image: Seq<u8>, entry: DtTableEntry) -> Result<Seq<u8>, DtboError> {
    read_at(image, entry.dt_size as int, entry.dt_offset as int)
}

/// The overlay of this index in `image`, or the first failure on the way to
/// it: reading the header, checking it, finding the entry, reading it,
/// reading the overlay.
pub open spec fn extracted(image: Seq<u8>, index: u32) -> Result<Seq<u8>, DtboError> {
    match header_of(image) {
        Err(e) => Err(e),
        Ok(header) => match entry_of(image, header, index) {
            Err(e) => Err(e),
            Ok(entry) => overlay_of(image, entry),
        },
    }
}

/// Decodes four bytes with `zerocopy::byteorder::U32<BigEndian>`: `from_bytes`
/// takes the bytes as they lie in the image, and `get` reads them as a number
/// with the most significant byte first.
#[verifier::external_body]
fn u32_from_be_bytes(b0: u8, b1: u8, b2: u8, b3: u8) -> (v: u32)
    ensures
        v == be_value(b0, b1, b2, b3),
{
    zerocopy::byteorder::U32::<zerocopy::byteorder::BigEndian>::from_bytes([b0, b1, b2, b3]).get()
}

/// Reads the big-endian 32-bit number at `at`.
fn read_be_u32(bytes: &[u8], at: usize) -> (v: u32)
    requires
        at + 4 <= bytes.len(),
    ensures
        v == be_u32(bytes@, at as int),
{
    u32_from_be_bytes(bytes[at], bytes[at + 1], bytes[at + 2], bytes[at + 3])
}

/// Decodes and checks the header of the table from the 32 bytes that hold
/// it.
pub fn decode_dt_table_header(bytes: &[u8]) -> (r: Result<DtTableHeader, DtboError>)
    ensures
        r == parsed_header(bytes@),
        be_u32(bytes@, 0) != DT_TABLE_MAGIC ==> r == Err::<DtTableHeader, DtboError>(
            DtboError::CorruptHeader,
        ) && DtboError::CorruptHeader.kind() == ErrorKind::MalformedInput,
{
    if bytes.len() != DT_TABLE_HEADER_SIZE {
        return Err(DtboError::CorruptHeader);
    }
    let header = DtTableHeader {
        magic: read_be_u32(bytes, 0),
        total_size: read_be_u32(bytes, 4),
        header_size: read_be_u32(bytes, 8),
        dt_entry_size: read_be_u32(bytes, 12),
        dt_entry_count: read_be_u32(bytes, 16),
        dt_entries_offset: read_be_u32(bytes, 20),
        page_size: read_be_u32(bytes, 24),
        version: read_be_u32(bytes, 28),
    };
    if header.magic != DT_TABLE_MAGIC || header.header_size != DT_TABLE_HEADER_SIZE as u32 {
        return Err(DtboError::CorruptHeader);
    }
    Ok(header)
}

/// Finds where the entry of this index starts.
pub fn get_dt_table_entry_offset(header: &DtTableHeader, index: u32) -> (r: Result<u32, DtboError>)
    ensures
        r == entry_offset(*header, index),
        index >= header.dt_entry_count ==> r == Err::<u32, DtboError>(
            DtboError::IndexOutOfRange { index, count: header.dt_entry_count },
        ),
{
    if index >= header.dt_entry_count {
        return Err(DtboError::IndexOutOfRange { index, count: header.dt_entry_count });
    }
    let prev_dt_entry_total_size = match header.dt_entry_size.checked_mul(index) {
        Some(size) => size,
        None => {
            return Err(DtboError::ArithmeticOverflow);
        },
    };
    match prev_dt_entry_total_size.checked_add(header.dt_entries_offset) {
        Some(offset) => Ok(offset),
        None => Err(DtboError::ArithmeticOverflow),
    }
}

/// Decodes the entry of this index from the 32 bytes that hold it.
pub fn decode_dt_table_entry(bytes: &[u8], index: u32) -> (r: Result<DtTableEntry, DtboError>)
    ensures
        r == parsed_entry(bytes@, index),
{
    if bytes.len() != DT_TABLE_ENTRY_SIZE {
        return Err(DtboError::CorruptEntry { index });
    }
    Ok(
        DtTableEntry {
            dt_size: read_be_u32(bytes, 0),
            dt_offset: read_be_u32(bytes, 4),
            id: read_be_u32(bytes, 8),
            rev: read_be_u32(bytes, 12),
            custom: [
                read_be_u32(bytes, 16),
                read_be_u32(bytes, 20),
                read_be_u32(bytes, 24),
                read_be_u32(bytes, 28),
            ],
        },
    )
}

/// Where the overlay of an entry lies in the image, and how long it is.
pub fn dt_blob_range(entry: &DtTableEntry) -> (r: (u64, usize))
    ensures
        r.0 == entry.dt_offset,
        r.1 == entry.dt_size,
{
    (entry.dt_offset as u64, entry.dt_size as usize)
}

/// Reads the `size` bytes of an image that is held in memory from `offset`
/// on.
pub fn read_values(image: &[u8], size: usize, offset: u64) -> (r: Result<&[u8], DtboError>)
    ensures
        match r {
            Ok(bytes) => read_at(image@, size as int, offset as int) == Ok::<Seq<u8>, DtboError>(
                bytes@,
            ),
            Err(e) => read_at(image@, size as int, offset as int) == Err::<Seq<u8>, DtboError>(e),
        },
{
    if offset > image.len() as u64 || size > image.len() - offset as usize {
        return Err(DtboError::ShortRead { offset, size: size as u64 });
    }
    let start = offset as usize;
    Ok(slice_subrange(image, start, start + size))
}

/// Reads and checks the header of an image that is held in memory.
pub fn get_dt_table_header(image: &[u8]) -> (r: Result<DtTableHeader, DtboError>)
    ensures
        r == header_of(image@),
        image@.len() >= DT_TABLE_HEADER_SIZE && be_u32(image@, 0) != DT_TABLE_MAGIC ==> r == Err::<
            DtTableHeader,
            DtboError,
        >(DtboError::CorruptHeader) && DtboError::CorruptHeader.kind() == ErrorKind::MalformedInput,
{
    match read_values(image, DT_TABLE_HEADER_SIZE, 0) {
        Ok(bytes) => decode_dt_table_header(bytes),
        Err(e) => Err(e),
    }
}

/// Reads the entry of this index from an image that is held in memory.
pub fn get_dt_table_entry(image: &[u8], header: &DtTableHeader, index: u32) -> (r: Result<
    DtTableEntry,
    DtboError,
>)
    ensures
        r == entry_of(image@, *header, index),
        index >= header.dt_entry_count ==> r == Err::<DtTableEntry, DtboError>(
            DtboError::IndexOutOfRange { index, count: header.dt_entry_count },
        ),
{
    let offset = match get_dt_table_entry_offset(header, index) {
        Ok(offset) => offset,
        Err(e) => {
            return Err(e);
        },
    };
    match read_values(image, DT_TABLE_ENTRY_SIZE, offset as u64) {
        Ok(bytes) => decode_dt_table_entry(bytes, index),
        Err(e) => Err(e),
    }
}

/// Gets the overlay that an entry points to out of an image that is held in
/// memory.
pub fn write_vm_full_dtbo_from_img(image: &[u8], entry: &DtTableEntry) -> (r: Result<
    Vec<u8>,
    DtboError,
>)
    ensures
        match r {
            Ok(overlay) => overlay_of(image@, *entry) == Ok::<Seq<u8>, DtboError>(overlay@),
            Err(e) => overlay_of(image@, *entry) == Err::<Seq<u8>, DtboError>(e),
        },
{
    let (dt_offset, dt_size) = dt_blob_range(entry);
    match read_values(image, dt_size, dt_offset) {
        Ok(bytes) => Ok(slice_to_vec(bytes)),
        Err(e) => Err(e),
    }
}

/// Extracts the overlay of this index from an image that is held in memory.
pub fn extract_entry(image: &[u8], index: u32) -> (r: Result<Vec<u8>, DtboError>)
    ensures
        match r {
            Ok(overlay) => extracted(image@, index) == Ok::<Seq<u8>, DtboError>(overlay@),
            Err(e) => extracted(image@, index) == Err::<Seq<u8>, DtboError>(e),
        },
        header_of(image@) matches Ok(header) ==> (index >= header.dt_entry_count ==> r == Err::<
            Vec<u8>,
            DtboError,
        >(DtboError::IndexOutOfRange { index, count: header.dt_entry_count })),
{
    let header = match get_dt_table_header(image) {
        Ok(header) => header,
        Err(e) => {
            return Err(e);
        },
    };
    let entry = match get_dt_table_entry(image, &header, index) {
        Ok(entry) => entry,
        Err(e) => {
            return Err(e);
        },
    };
    write_vm_full_dtbo_from_img(image, &entry)
}

/// The index that the index of the overlay, given as text, stands for.
pub open spec fn parsed_index(text: Seq<char>) -> Result<u32, DtboError> {
    match parse_unsigned(text, u32::MAX as nat) {
        Some(index) => Ok(index as u32),
        None => Err(DtboError::InvalidIndex),
    }
}

/// Reads the index of the overlay that guests are given: a decimal numeral
/// of 32 bits.
pub fn parse_vm_dtbo_index(text: &str) -> (r: Result<u32, DtboError>)
    ensures
        r == parsed_index(text@),
{
    match parse_decimal(text, u32::MAX as u64) {
        Some(index) => Ok(index as u32),
        None => Err(DtboError::InvalidIndex),
    }
}

/// The path of the DTBO partition of the boot slot with this suffix.
pub fn get_dtbo_img_path(slot_suffix: &str) -> (path: String)
    ensures
        path@ == "/dev/block/by-name/dtbo"@ + slot_suffix@,
{
    String::from_str("/dev/block/by-name/dtbo").concat(slot_suffix)
}

} // verus!
