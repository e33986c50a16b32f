use squash_zip::{
    get_general_purpose_bit_flag, get_version_made_by, version_needed_to_extract,
    CentralDirectoryHeader, CompressionMethod, EndOfCentralDirectory, LocalFileHeader,
    SquashZipError, ZipFeature, ZipFeatureSet, DUMMY_SQUASH_TIME,
};

fn local_bytes(header: &LocalFileHeader) -> Vec<u8> {
    let mut out = Vec::new();
    header.write(&mut out);
    out
}

fn central_bytes(header: &CentralDirectoryHeader) -> Vec<u8> {
    let mut out = Vec::new();
    header.write(&mut out);
    out
}

fn eocd_bytes(record: &EndOfCentralDirectory) -> Vec<u8> {
    let mut out = Vec::new();
    record.write(&mut out);
    out
}

fn eocd(
    entries_disk: u64,
    entries_total: u64,
    size: u64,
    offset: u64,
    size_offset: i8,
    zero_out: bool,
) -> EndOfCentralDirectory {
    EndOfCentralDirectory::new(
        3, 4, entries_disk, entries_total, size, offset, 5, 0x1122_3344_5566, size_offset,
        false, zero_out,
    )
}

#[test]
fn dummy_squash_time_is_first_of_january_1980() {
    assert_eq!(DUMMY_SQUASH_TIME, [0x00, 0x00, 0x21, 0x00]);
    let date = u16::from_le_bytes([DUMMY_SQUASH_TIME[2], DUMMY_SQUASH_TIME[3]]);
    assert_eq!(date & 0x1F, 1);
    assert_eq!((date >> 5) & 0xF, 1);
    assert_eq!(date >> 9, 0);
}

#[test]
fn local_header_new_defaults() {
    let header = LocalFileHeader::new("a.txt").unwrap();
    assert_eq!(header.compression_method, CompressionMethod::Store);
    assert_eq!(header.squash_time, DUMMY_SQUASH_TIME);
    assert_eq!(header.crc32, 0);
    assert_eq!(header.compressed_size, 0);
    assert_eq!(header.uncompressed_size, 0);
    assert_eq!(header.file_name, "a.txt");
}

#[test]
fn local_header_exact_bytes() {
    let mut header = LocalFileHeader::new("a.txt").unwrap();
    header.compression_method = CompressionMethod::Deflate;
    header.crc32 = 0xAABBCCDD;
    header.compressed_size = 0x0102;
    header.uncompressed_size = 0x030405;
    let expected: Vec<u8> = vec![
        0x50, 0x4B, 0x03, 0x04, // signature
        20, 0, // version needed: deflate
        0, 0, // ASCII name
        8, 0, // deflate
        0x00, 0x00, 0x21, 0x00, // squash time
        0xDD, 0xCC, 0xBB, 0xAA, // crc32
        0x02, 0x01, 0, 0, // compressed size
        0x05, 0x04, 0x03, 0, // uncompressed size
        5, 0, // name length
        0, 0, // no extra field
        b'a', b'.', b't', b'x', b't',
    ];
    assert_eq!(local_bytes(&header), expected);
    assert_eq!(header.get_size(), 35);
}

#[test]
fn local_header_store_needs_version_ten() {
    let header = LocalFileHeader::new("x").unwrap();
    let bytes = local_bytes(&header);
    assert_eq!(&bytes[4..6], &[10, 0]);
    assert_eq!(&bytes[8..10], &[0, 0]);
}

#[test]
fn local_header_size_matches_write_and_reserve() {
    for name in ["", "a", "dir/file.json", "ñandú/ü.png", "日本語"] {
        let mut header = LocalFileHeader::new(name).unwrap();
        header.compression_method = CompressionMethod::Deflate;
        let written = local_bytes(&header);
        let mut reserved = Vec::new();
        header.reserve_space(&mut reserved);
        assert_eq!(written.len(), header.get_size() as usize);
        assert_eq!(reserved.len(), header.get_size() as usize);
        assert!(reserved.iter().all(|b| *b == 0));
        assert_eq!(header.get_size() as usize, 30 + name.len());
    }
}

#[test]
fn reserve_space_appends_after_existing_bytes() {
    let header = LocalFileHeader::new("abc").unwrap();
    let mut out = vec![7u8, 8];
    header.reserve_space(&mut out);
    assert_eq!(out.len(), 2 + 33);
    assert_eq!(&out[..2], &[7, 8]);
}

#[test]
fn file_name_of_65535_bytes_is_accepted() {
    let name = "a".repeat(65535);
    let header = LocalFileHeader::new(&name).unwrap();
    assert_eq!(header.get_size(), 30 + 65535);
    let bytes = local_bytes(&header);
    assert_eq!(&bytes[26..28], &[0xFF, 0xFF]);
    assert_eq!(bytes.len(), 30 + 65535);
}

#[test]
fn file_name_of_65536_bytes_is_rejected() {
    let name = "a".repeat(65536);
    match LocalFileHeader::new(&name) {
        Err(e) => assert_eq!(e, SquashZipError::FileNameTooLong(65536)),
        Ok(_) => panic!("a 65536-byte file name was accepted"),
    }
}

#[test]
fn multibyte_name_length_counts_bytes() {
    // 32768 two-byte characters: 65536 bytes
    let name = "é".repeat(32768);
    assert!(LocalFileHeader::new(&name).is_err());
    let name = "é".repeat(32767);
    assert!(LocalFileHeader::new(&name).is_ok());
}

#[test]
fn utf8_flag_follows_non_ascii_bytes() {
    assert_eq!(get_general_purpose_bit_flag("plain/ascii.txt"), 0);
    assert_eq!(get_general_purpose_bit_flag(""), 0);
    assert_eq!(get_general_purpose_bit_flag("\u{7F}"), 0);
    assert_eq!(get_general_purpose_bit_flag("caf\u{E9}"), 0x0800);
    assert_eq!(get_general_purpose_bit_flag("\u{1F600}"), 0x0800);

    let local = LocalFileHeader::new("caf\u{E9}").unwrap();
    assert_eq!(&local_bytes(&local)[6..8], &[0x00, 0x08]);
    let local = LocalFileHeader::new("cafe").unwrap();
    assert_eq!(&local_bytes(&local)[6..8], &[0x00, 0x00]);

    let central = CentralDirectoryHeader::new(
        "caf\u{E9}", 0, CompressionMethod::Store, DUMMY_SQUASH_TIME, 0, 0, 0, 0, false,
    );
    assert_eq!(&central_bytes(&central)[8..10], &[0x00, 0x08]);
    let central = CentralDirectoryHeader::new(
        "cafe", 0, CompressionMethod::Store, DUMMY_SQUASH_TIME, 0, 0, 0, 0, false,
    );
    assert_eq!(&central_bytes(&central)[8..10], &[0x00, 0x00]);
}

#[test]
fn central_header_exact_bytes_without_zip64() {
    let header = CentralDirectoryHeader::new(
        "ab",
        0x0A0B0C0D,
        CompressionMethod::Deflate,
        [1, 2, 3, 4],
        0x11223344,
        0x55,
        0x66,
        2,
        false,
    );
    let expected: Vec<u8> = vec![
        0x50, 0x4B, 0x01, 0x02, // signature
        45, 0, // version made by
        20, 0, // version needed: deflate
        0, 0, // ASCII name
        8, 0, // deflate
        1, 2, 3, 4, // squash time
        0x44, 0x33, 0x22, 0x11, // crc32
        0x55, 0, 0, 0, // compressed size
        0x66, 0, 0, 0, // uncompressed size
        2, 0, // name length
        0, 0, // extra field length
        0, 0, // comment length
        2, 0, // disk number
        0, 0, // internal attributes
        1, 0, 0, 0, // external attributes: read-only
        0x0D, 0x0C, 0x0B, 0x0A, // local header offset
        b'a', b'b',
    ];
    assert_eq!(central_bytes(&header), expected);
    assert_eq!(header.get_size(), 48);
    assert!(!header.requires_zip64_extensions());
    assert_eq!(header.compute_extra_field_length(), 0);
}

#[test]
fn central_header_offset_at_u32_max_is_not_promoted() {
    let header = CentralDirectoryHeader::new(
        "n", u32::MAX as u64, CompressionMethod::Store, DUMMY_SQUASH_TIME, 0, 0, 0, 0, true,
    );
    let bytes = central_bytes(&header);
    assert_eq!(bytes.len(), 47);
    assert_eq!(header.get_size(), 47);
    assert_eq!(&bytes[42..46], &[0xFF, 0xFF, 0xFF, 0xFF]);
    assert_eq!(&bytes[30..32], &[0, 0]);
    assert_eq!(&bytes[6..8], &[10, 0]);
}

#[test]
fn central_header_large_offset_is_promoted() {
    let offset: u64 = 0x0000_0001_0203_0405;
    let small = CentralDirectoryHeader::new(
        "name", 5, CompressionMethod::Store, DUMMY_SQUASH_TIME, 0, 0, 0, 0, true,
    );
    let header = CentralDirectoryHeader::new(
        "name", offset, CompressionMethod::Store, DUMMY_SQUASH_TIME, 0, 0, 0, 0, true,
    );
    let bytes = central_bytes(&header);
    assert!(header.requires_zip64_extensions());
    assert!(header.local_header_offset_requires_zip64_extensions());
    assert_eq!(header.compute_extra_field_length(), 12);
    assert_eq!(header.get_size(), small.get_size() + 12);
    assert_eq!(bytes.len(), header.get_size() as usize);
    assert_eq!(&bytes[4..6], &[30, 3]); // spoofed version made by
    assert_eq!(&bytes[6..8], &[45, 0]); // ZIP64 needed
    assert_eq!(&bytes[30..32], &[12, 0]);
    assert_eq!(&bytes[42..46], &[0xFF, 0xFF, 0xFF, 0xFF]);
    assert_eq!(&bytes[46..50], b"name");
    assert_eq!(&bytes[50..54], &[1, 0, 8, 0]);
    assert_eq!(&bytes[54..62], &offset.to_le_bytes());
}

#[test]
fn eocd_classic_only() {
    let record = eocd(10, 20, 3000, 4000, 0, true);
    assert!(!record.requires_zip64_extensions());
    assert_eq!(record.get_size(), 22);
    let expected: Vec<u8> = vec![
        0x50, 0x4B, 0x05, 0x06, // signature
        3, 0, // disk number
        4, 0, // central directory start disk
        10, 0, // entries on this disk
        20, 0, // total entries
        0xB8, 0x0B, 0, 0, // central directory size
        0xA0, 0x0F, 0, 0, // central directory offset
        0, 0, // comment length
    ];
    assert_eq!(eocd_bytes(&record), expected);
}

#[test]
fn eocd_counters_at_classic_maximum_stay_classic() {
    let record = eocd(65535, 65535, u32::MAX as u64, u32::MAX as u64, 0, false);
    assert!(!record.requires_zip64_extensions());
    assert_eq!(eocd_bytes(&record).len(), 22);
}

#[test]
fn eocd_total_entry_count_promoted() {
    for zero_out in [false, true] {
        let record = eocd(10, 70000, 3000, 4000, 0, zero_out);
        assert!(record.total_entry_count_requires_zip64_extensions());
        assert!(record.requires_zip64_extensions());
        assert_eq!(record.get_size(), 98);
        let bytes = eocd_bytes(&record);
        assert_eq!(bytes.len(), 98);
        assert_eq!(&bytes[0..4], &[0x50, 0x4B, 0x06, 0x06]);
        assert_eq!(&bytes[32..40], &70000u64.to_le_bytes());
        assert_eq!(&bytes[56..60], &[0x50, 0x4B, 0x06, 0x07]);
        assert_eq!(&bytes[76..80], &[0x50, 0x4B, 0x05, 0x06]);
        assert_eq!(&bytes[84..86], &[10, 0]);
        assert_eq!(&bytes[86..88], &[0xFF, 0xFF]);
    }
}

#[test]
fn eocd_zip64_exact_bytes_without_zero_out() {
    let record = eocd(10, 70000, 3000, 4000, 0, false);
    let mut expected: Vec<u8> = vec![0x50, 0x4B, 0x06, 0x06];
    expected.extend_from_slice(&44u64.to_le_bytes());
    expected.extend_from_slice(&[45, 0, 45, 0]);
    expected.extend_from_slice(&3u32.to_le_bytes());
    expected.extend_from_slice(&4u32.to_le_bytes());
    expected.extend_from_slice(&10u64.to_le_bytes());
    expected.extend_from_slice(&70000u64.to_le_bytes());
    expected.extend_from_slice(&3000u64.to_le_bytes());
    expected.extend_from_slice(&4000u64.to_le_bytes());
    expected.extend_from_slice(&[0x50, 0x4B, 0x06, 0x07]);
    expected.extend_from_slice(&4u32.to_le_bytes());
    expected.extend_from_slice(&0x1122_3344_5566u64.to_le_bytes());
    expected.extend_from_slice(&5u32.to_le_bytes());
    expected.extend_from_slice(&[0x50, 0x4B, 0x05, 0x06, 3, 0, 4, 0, 10, 0, 0xFF, 0xFF]);
    expected.extend_from_slice(&3000u32.to_le_bytes());
    expected.extend_from_slice(&4000u32.to_le_bytes());
    expected.extend_from_slice(&[0, 0]);
    assert_eq!(eocd_bytes(&record), expected);
}

#[test]
fn eocd_zero_out_spares_promoted_fields() {
    let size: u64 = 0x1_0000_0000;
    let record = eocd(10, 70000, size, 4000, 0, true);
    let bytes = eocd_bytes(&record);
    assert_eq!(&bytes[16..20], &[0, 0, 0, 0]);
    assert_eq!(&bytes[20..24], &[0, 0, 0, 0]);
    assert_eq!(&bytes[24..32], &[0; 8]);
    assert_eq!(&bytes[32..40], &70000u64.to_le_bytes());
    assert_eq!(&bytes[40..48], &size.to_le_bytes());
    assert_eq!(&bytes[48..56], &[0; 8]);
    assert_eq!(&bytes[60..64], &[0, 0, 0, 0]);
    assert_eq!(&bytes[88..92], &[0xFF, 0xFF, 0xFF, 0xFF]);
    assert_eq!(&bytes[92..96], &4000u32.to_le_bytes());
}

#[test]
fn eocd_each_counter_triggers_zip64() {
    assert!(eocd(65536, 1, 1, 1, 0, false).entry_count_current_disk_requires_zip64_extensions());
    assert!(eocd(65536, 1, 1, 1, 0, false).requires_zip64_extensions());
    assert!(eocd(1, 1, 1 << 32, 1, 0, false).central_directory_size_requires_zip64_extensions());
    assert!(eocd(1, 1, 1 << 32, 1, 0, false).requires_zip64_extensions());
    assert!(eocd(1, 1, 1, 1 << 32, 0, false)
        .central_directory_start_offset_requires_zip64_extensions());
    assert_eq!(eocd(1, 1, 1, 1 << 32, 0, false).get_size(), 98);
    let bytes = eocd_bytes(&eocd(65536, 1, 1, 1, 0, false));
    assert_eq!(&bytes[84..86], &[0xFF, 0xFF]);
    assert_eq!(&bytes[86..88], &[1, 0]);
}

#[test]
fn eocd_record_size_correction() {
    let bytes = eocd_bytes(&eocd(1, 70000, 1, 1, 10, false));
    assert_eq!(&bytes[4..12], &54u64.to_le_bytes());
    let bytes = eocd_bytes(&eocd(1, 70000, 1, 1, -44, false));
    assert_eq!(&bytes[4..12], &0u64.to_le_bytes());
    let bytes = eocd_bytes(&eocd(1, 70000, 1, 1, -128, false));
    assert_eq!(&bytes[4..12], &0u64.to_le_bytes());
    let bytes = eocd_bytes(&eocd(1, 70000, 1, 1, 127, false));
    assert_eq!(&bytes[4..12], &171u64.to_le_bytes());
}

#[test]
fn eocd_spoofed_version_made_by() {
    let record = EndOfCentralDirectory::new(0, 0, 1, 70000, 1, 1, 1, 0, 0, true, false);
    assert_eq!(&eocd_bytes(&record)[12..16], &[30, 3, 45, 0]);
}

#[test]
fn compression_method_round_trip() {
    for method in [CompressionMethod::Store, CompressionMethod::Deflate] {
        let code = method.to_compression_method_field();
        assert_eq!(CompressionMethod::from_compression_method_field(code), Ok(method));
    }
    assert_eq!(CompressionMethod::Store.to_compression_method_field(), 0);
    assert_eq!(CompressionMethod::Deflate.to_compression_method_field(), 8);
}

#[test]
fn unknown_compression_method_is_rejected() {
    for code in [1u16, 7, 9, 12, 14, 93, 0xFFFF] {
        assert_eq!(
            CompressionMethod::from_compression_method_field(code),
            Err(SquashZipError::UnknownCompressionMethod(code))
        );
    }
}

#[test]
fn version_needed_highest_feature_wins() {
    let mut set = ZipFeatureSet::empty();
    assert_eq!(version_needed_to_extract(&set), 10);
    set.insert(ZipFeature::BasicFeatures);
    assert_eq!(version_needed_to_extract(&set), 10);
    set.insert(ZipFeature::DeflateCompression);
    assert_eq!(version_needed_to_extract(&set), 20);
    set.insert(ZipFeature::Zip64Extensions);
    assert_eq!(version_needed_to_extract(&set), 45);
    assert_eq!(ZipFeature::Zip64Extensions.to_version_needed_to_extract(), 45);
    assert_eq!(ZipFeature::DeflateCompression.to_version_needed_to_extract(), 20);
    assert_eq!(ZipFeature::BasicFeatures.to_version_needed_to_extract(), 10);
}

#[test]
fn version_needed_ignores_insertion_order() {
    let mut a = ZipFeatureSet::empty();
    a.insert(ZipFeature::Zip64Extensions);
    a.insert(ZipFeature::DeflateCompression);
    let mut b = ZipFeatureSet::empty();
    b.insert(ZipFeature::DeflateCompression);
    b.insert(ZipFeature::Zip64Extensions);
    b.insert(ZipFeature::DeflateCompression);
    assert_eq!(version_needed_to_extract(&a), version_needed_to_extract(&b));
    assert_eq!(version_needed_to_extract(&a), version_needed_to_extract(&a));
    assert_eq!(a, b);
}

#[test]
fn version_made_by_spoofing() {
    assert_eq!(get_version_made_by(true), [30, 3]);
    assert_eq!(get_version_made_by(false), [45, 0]);
}
