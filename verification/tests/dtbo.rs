use vmprep::dtbo::{
    decode_dt_table_entry, decode_dt_table_header, dt_blob_range, extract_entry,
    get_dt_table_entry, get_dt_table_entry_offset, get_dt_table_header, get_dtbo_img_path,
    parse_vm_dtbo_index, read_values, write_vm_full_dtbo_from_img, DtTableEntry, DtTableHeader,
    DtboError,
};
use vmprep::error::ErrorKind;
use vmprep::handler::VfioHandler;

const MAGIC: u32 = 0xd7b7ab1e;

fn words(fields: [u32; 8]) -> Vec<u8> {
    fields.iter().flat_map(|f| f.to_be_bytes()).collect()
}

fn header(count: u32, entries_offset: u32) -> DtTableHeader {
    DtTableHeader {
        magic: MAGIC,
        total_size: 0,
        header_size: 32,
        dt_entry_size: 32,
        dt_entry_count: count,
        dt_entries_offset: entries_offset,
        page_size: 2048,
        version: 0,
    }
}

/// An image with a gap behind the header and two overlays.
fn image() -> Vec<u8> {
    let mut image = words([MAGIC, 116, 32, 32, 2, 40, 2048, 0]);
    image.extend([0xee; 8]);
    image.extend(words([5, 104, 1, 2, 3, 4, 5, 6]));
    image.extend(words([7, 109, 0, 0, 0, 0, 0, 0]));
    image.extend(b"first");
    image.extend(b"second!");
    assert_eq!(image.len(), 116);
    image
}

#[test]
fn header_is_read_field_by_field() {
    let bytes = words([MAGIC, 0x01020304, 32, 0x0a0b0c0d, 0x80000001, 0xfffffffe, 7, 0xff]);
    assert_eq!(get_dt_table_header(&bytes), decode_dt_table_header(&bytes));
    assert_eq!(
        decode_dt_table_header(&bytes),
        Ok(DtTableHeader {
            magic: 0xd7b7ab1e,
            total_size: 0x01020304,
            header_size: 32,
            dt_entry_size: 0x0a0b0c0d,
            dt_entry_count: 0x80000001,
            dt_entries_offset: 0xfffffffe,
            page_size: 7,
            version: 0xff,
        })
    );
}

#[test]
fn header_is_big_endian() {
    let mut bytes = words([MAGIC, 0, 32, 0, 0, 0, 0, 0]);
    bytes[4..8].copy_from_slice(&[0x12, 0x34, 0x56, 0x78]);
    assert_eq!(decode_dt_table_header(&bytes).unwrap().total_size, 0x12345678);
    // The same fields the other way round are no header.
    let little: Vec<u8> =
        [MAGIC, 0, 32, 0, 0, 0, 0, 0].iter().flat_map(|f| f.to_le_bytes()).collect();
    assert_eq!(decode_dt_table_header(&little), Err(DtboError::CorruptHeader));
}

#[test]
fn header_with_another_magic_is_corrupt() {
    for magic in [0, 1, MAGIC - 1, MAGIC + 1, MAGIC.swap_bytes(), u32::MAX] {
        for rest in [[0; 7], [u32::MAX; 7], [7, 32, 32, 1, 32, 4096, 0]] {
            let mut fields = [magic; 8];
            fields[1..].copy_from_slice(&rest);
            let err = decode_dt_table_header(&words(fields)).unwrap_err();
            assert_eq!(err, DtboError::CorruptHeader);
            assert_eq!(err.kind(), ErrorKind::MalformedInput);
            // Whatever follows the header.
            let mut image = words(fields);
            image.extend([0x5a; 100]);
            assert_eq!(get_dt_table_header(&image), Err(DtboError::CorruptHeader));
            assert_eq!(extract_entry(&image, 0), Err(DtboError::CorruptHeader));
        }
    }
}

#[test]
fn header_of_another_size_is_corrupt() {
    assert_eq!(
        decode_dt_table_header(&words([MAGIC, 0, 31, 0, 0, 0, 0, 0])),
        Err(DtboError::CorruptHeader)
    );
    assert_eq!(
        decode_dt_table_header(&words([MAGIC, 0, 33, 0, 0, 0, 0, 0])),
        Err(DtboError::CorruptHeader)
    );
    let good = words([MAGIC, 0, 32, 0, 0, 0, 0, 0]);
    assert!(decode_dt_table_header(&good).is_ok());
    assert_eq!(decode_dt_table_header(&good[..31]), Err(DtboError::CorruptHeader));
    let mut long = good.clone();
    long.push(0);
    assert_eq!(decode_dt_table_header(&long), Err(DtboError::CorruptHeader));
    assert_eq!(decode_dt_table_header(&[]), Err(DtboError::CorruptHeader));
    // An image is as long as it likes behind its header, but no shorter.
    assert!(get_dt_table_header(&long).is_ok());
    assert_eq!(get_dt_table_header(&good[..31]), Err(DtboError::ShortRead { offset: 0, size: 32 }));
}

#[test]
fn entry_offset_counts_from_the_first_entry() {
    let h = header(4, 40);
    assert_eq!(get_dt_table_entry_offset(&h, 0), Ok(40));
    assert_eq!(get_dt_table_entry_offset(&h, 1), Ok(72));
    assert_eq!(get_dt_table_entry_offset(&h, 3), Ok(136));
    let wide = DtTableHeader { dt_entry_size: 48, ..header(4, 32) };
    assert_eq!(get_dt_table_entry_offset(&wide, 2), Ok(128));
}

#[test]
fn index_at_or_past_the_count_is_out_of_range() {
    for count in [0, 1, 2, 1000, u32::MAX] {
        let h = header(count, 32);
        let err = get_dt_table_entry_offset(&h, count).unwrap_err();
        assert_eq!(err, DtboError::IndexOutOfRange { index: count, count });
        assert_eq!(err.kind(), ErrorKind::MalformedInput);
        if count < u32::MAX {
            assert_eq!(
                get_dt_table_entry_offset(&h, count + 1),
                Err(DtboError::IndexOutOfRange { index: count + 1, count })
            );
        }
    }
    // The index is looked at before the offset is computed.
    let huge = DtTableHeader { dt_entry_size: u32::MAX, ..header(3, u32::MAX) };
    assert_eq!(
        get_dt_table_entry_offset(&huge, 3),
        Err(DtboError::IndexOutOfRange { index: 3, count: 3 })
    );
}

#[test]
fn entry_offset_does_not_wrap() {
    let h = DtTableHeader { dt_entry_size: 0x1_0000, ..header(u32::MAX, 32) };
    assert_eq!(get_dt_table_entry_offset(&h, 0xffff), Ok(0xffff_0020));
    let err = get_dt_table_entry_offset(&h, 0x1_0000).unwrap_err();
    assert_eq!(err, DtboError::ArithmeticOverflow);
    assert_eq!(err.kind(), ErrorKind::ArithmeticOverflow);
    // The product fits, the sum does not.
    let h = DtTableHeader { dt_entry_size: 32, ..header(u32::MAX, u32::MAX - 63) };
    assert_eq!(get_dt_table_entry_offset(&h, 1), Ok(u32::MAX - 31));
    assert_eq!(get_dt_table_entry_offset(&h, 2), Err(DtboError::ArithmeticOverflow));
    // The sum is the largest offset there is.
    let h = DtTableHeader { dt_entry_size: 5, ..header(u32::MAX, 0) };
    assert_eq!(get_dt_table_entry_offset(&h, 858993459), Ok(u32::MAX));
    assert_eq!(get_dt_table_entry_offset(&h, 858993460), Err(DtboError::ArithmeticOverflow));
}

#[test]
fn entry_is_read_field_by_field() {
    let bytes = words([5, 104, 1, 2, 3, 4, 5, 0x01020304]);
    let entry = decode_dt_table_entry(&bytes, 9).unwrap();
    assert_eq!(
        entry,
        DtTableEntry { dt_size: 5, dt_offset: 104, id: 1, rev: 2, custom: [3, 4, 5, 0x01020304] }
    );
    assert_eq!(dt_blob_range(&entry), (104, 5));
    let err = decode_dt_table_entry(&bytes[..31], 9).unwrap_err();
    assert_eq!(err, DtboError::CorruptEntry { index: 9 });
    assert_eq!(err.kind(), ErrorKind::MalformedInput);
}

#[test]
fn entry_is_found_by_its_index() {
    let image = image();
    let h = get_dt_table_header(&image).unwrap();
    assert_eq!(
        get_dt_table_entry(&image, &h, 0),
        Ok(DtTableEntry { dt_size: 5, dt_offset: 104, id: 1, rev: 2, custom: [3, 4, 5, 6] })
    );
    assert_eq!(
        get_dt_table_entry(&image, &h, 1),
        Ok(DtTableEntry { dt_size: 7, dt_offset: 109, id: 0, rev: 0, custom: [0; 4] })
    );
    assert_eq!(
        get_dt_table_entry(&image, &h, 2),
        Err(DtboError::IndexOutOfRange { index: 2, count: 2 })
    );
    assert_eq!(
        get_dt_table_entry(&image[..80], &h, 1),
        Err(DtboError::ShortRead { offset: 72, size: 32 })
    );
}

#[test]
fn overlay_is_extracted_verbatim() {
    let image = image();
    assert_eq!(extract_entry(&image, 0).unwrap(), b"first");
    assert_eq!(extract_entry(&image, 1).unwrap(), b"second!");
    assert_eq!(extract_entry(&image, 2), Err(DtboError::IndexOutOfRange { index: 2, count: 2 }));
    let h = get_dt_table_header(&image).unwrap();
    let entry = get_dt_table_entry(&image, &h, 1).unwrap();
    assert_eq!(write_vm_full_dtbo_from_img(&image, &entry).unwrap(), b"second!");
}

#[test]
fn overlay_of_no_bytes_is_empty() {
    let mut image = words([MAGIC, 64, 32, 32, 1, 32, 2048, 0]);
    image.extend(words([0, 64, 0, 0, 0, 0, 0, 0]));
    assert_eq!(extract_entry(&image, 0).unwrap(), b"");
}

#[test]
fn image_that_ends_early_is_a_short_read() {
    let image = image();
    assert_eq!(extract_entry(&image[..31], 0), Err(DtboError::ShortRead { offset: 0, size: 32 }));
    assert_eq!(extract_entry(&[], 0), Err(DtboError::ShortRead { offset: 0, size: 32 }));
    assert_eq!(extract_entry(&image[..71], 0), Err(DtboError::ShortRead { offset: 40, size: 32 }));
    assert_eq!(extract_entry(&image[..103], 1), Err(DtboError::ShortRead { offset: 72, size: 32 }));
    assert_eq!(extract_entry(&image[..108], 0), Err(DtboError::ShortRead { offset: 104, size: 5 }));
    let err = extract_entry(&image[..115], 1).unwrap_err();
    assert_eq!(err, DtboError::ShortRead { offset: 109, size: 7 });
    assert_eq!(err.kind(), ErrorKind::IoFailure);
    assert_eq!(extract_entry(&image[..109], 0).unwrap(), b"first");
    assert_eq!(read_values(&image, 0, 116).unwrap(), b"");
    assert_eq!(read_values(&image, 2, 3).unwrap(), &image[3..5]);
    assert_eq!(read_values(&image, 0, 117), Err(DtboError::ShortRead { offset: 117, size: 0 }));
    assert_eq!(
        read_values(&image, usize::MAX, 1),
        Err(DtboError::ShortRead { offset: 1, size: usize::MAX as u64 })
    );
    assert_eq!(
        read_values(&image, 1, u64::MAX),
        Err(DtboError::ShortRead { offset: u64::MAX, size: 1 })
    );
}

#[test]
fn corrupt_header_comes_before_the_index() {
    let mut image = image();
    image[0] ^= 1;
    assert_eq!(extract_entry(&image, 7), Err(DtboError::CorruptHeader));
    let handler = VfioHandler::init();
    assert_eq!(handler.writeVmDtbo(&image, "seven"), Err(DtboError::CorruptHeader));
}

#[test]
fn index_is_a_decimal_numeral() {
    assert_eq!(parse_vm_dtbo_index("0"), Ok(0));
    assert_eq!(parse_vm_dtbo_index("+12"), Ok(12));
    assert_eq!(parse_vm_dtbo_index("4294967295"), Ok(u32::MAX));
    for text in ["", "4294967296", "-1", "1 ", "0x1", "one"] {
        let err = parse_vm_dtbo_index(text).unwrap_err();
        assert_eq!(err, DtboError::InvalidIndex);
        assert_eq!(err.kind(), ErrorKind::MalformedInput);
    }
}

#[test]
fn handler_gets_the_overlay_of_the_guest() {
    let image = image();
    let handler = VfioHandler::init();
    assert_eq!(handler.writeVmDtbo(&image, "1").unwrap(), b"second!");
    assert_eq!(handler.writeVmDtbo(&image, "x"), Err(DtboError::InvalidIndex));
    assert_eq!(
        handler.writeVmDtbo(&image, "2"),
        Err(DtboError::IndexOutOfRange { index: 2, count: 2 })
    );
    assert_eq!(
        handler.writeVmDtbo(&image[..10], "x"),
        Err(DtboError::ShortRead { offset: 0, size: 32 })
    );
}

#[test]
fn dtbo_partition_goes_by_the_slot() {
    assert_eq!(get_dtbo_img_path("_a"), "/dev/block/by-name/dtbo_a");
    assert_eq!(get_dtbo_img_path(""), "/dev/block/by-name/dtbo");
}

#[test]
fn dtbo_failures_say_what_failed() {
    assert_eq!(DtboError::CorruptHeader.message(), "DtTableHeader is invalid");
    assert_eq!(
        DtboError::CorruptEntry { index: 3 }.message(),
        "DtTableEntry at index 3 is invalid."
    );
    assert_eq!(
        DtboError::IndexOutOfRange { index: 12, count: 2 }.message(),
        "Invalid dtbo index 12"
    );
    assert_eq!(DtboError::ArithmeticOverflow.message(), "Unexpected arithmetic result");
    assert_eq!(
        DtboError::ShortRead { offset: 40, size: 32 }.message(),
        "Failed to read 32 bytes at offset 40"
    );
    assert_eq!(DtboError::InvalidIndex.message(), "vm_dtbo_idx is not an integer");
}
