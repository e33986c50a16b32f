//! The central directory file header, one per entry in the central directory.
use vstd::prelude::*;
use vstd::string::StringSliceAdditionalSpecFns;

use crate::bytes::{le16, le32, le64, push_bytes, push_u16, push_u32, push_u64};
use crate::compression::{wire_code, CompressionMethod};
use crate::feature::{
    get_version_made_by, version_made_by_bytes, version_needed, version_needed_to_extract,
    ZipFeature, ZipFeatureSet,
};
use crate::file_name::{
    general_purpose_flag, get_general_purpose_bit_flag, has_non_ascii_byte,
    lemma_general_purpose_flag_bits,
};

verus! {

broadcast use crate::bytes::group_le_lengths;

/// The magic number that starts a central directory file header.
pub const CENTRAL_DIRECTORY_HEADER_SIGNATURE: u32 = 0x02014B50;

/// The number of bytes of a central directory header that depend neither on
/// the file name nor on the extra fields.
pub const CENTRAL_DIRECTORY_HEADER_FIXED_SIZE: u32 = 46;

/// The MS-DOS read-only file attribute. It signals that extracted files are
/// not meant to be modified, although extraction tools may ignore it.
pub const FILE_ATTRIBUTE_READONLY: u32 = 0x1;

/// The tag of the ZIP64 extended information extra field.
pub const ZIP64_EXTRA_FIELD_TAG: u16 = 0x0001;

/// The largest value a 32-bit field holds, written in place of a value that
/// only fits a ZIP64 field.
pub const U32_SENTINEL: u32 = 0xFFFF_FFFF;

/// The features that extracting an entry with a central directory header
/// that uses `method`, and ZIP64 extensions when `zip64`, needs.
pub open spec fn central_header_features(method: CompressionMethod, zip64: bool) -> Set<
    ZipFeature,
> {
    let deflate: Set<ZipFeature> = if method == CompressionMethod::Deflate {
        set![ZipFeature::DeflateCompression]
    } else {
        Set::empty()
    };
    if zip64 {
        deflate.insert(ZipFeature::Zip64Extensions)
    } else {
        deflate
    }
}

/// A central directory file header, defined in section 4.3.12 of the ZIP
/// specification.
pub struct CentralDirectoryHeader<'a> {
    pub compression_method: CompressionMethod,
    pub squash_time: [u8; 4],
    pub crc32: u32,
    pub compressed_size: u32,
    pub uncompressed_size: u32,
    pub local_header_disk_number: u16,
    pub local_header_offset: u64,
    pub file_name: &'a str,
    pub spoof_version_made_by: bool,
}

impl<'a> CentralDirectoryHeader<'a> {
    /// The UTF-8 bytes of the file name.
    pub open spec fn name_bytes(&self) -> Seq<u8> {
        self.file_name.spec_bytes()
    }

    /// The file name length fits its 16-bit field.
    pub open spec fn wf(&self) -> bool {
        self.name_bytes().len() <= u16::MAX
    }

    /// Whether the local header offset does not fit 32 bits, which is the one
    /// reason for this record to need ZIP64 extensions.
    pub open spec fn spec_requires_zip64(&self) -> bool {
        self.local_header_offset > u32::MAX
    }

    /// The total length of the extra fields of this record.
    pub open spec fn spec_extra_field_length(&self) -> u16 {
        if self.spec_requires_zip64() {
            12
        } else {
            0
        }
    }

    /// The ZIP64 extended information extra field: its tag, the length of its
    /// data, and the 8-byte local header offset; nothing when not needed.
    pub open spec fn zip64_extra_field(&self) -> Seq<u8> {
        if self.spec_requires_zip64() {
            le16(ZIP64_EXTRA_FIELD_TAG) + le16(8) + le64(self.local_header_offset)
        } else {
            Seq::empty()
        }
    }

    /// The value of the 32-bit local header offset field.
    pub open spec fn offset_field(&self) -> u32 {
        if self.spec_requires_zip64() {
            U32_SENTINEL
        } else {
            self.local_header_offset as u32
        }
    }

    /// The fields from the signature up to the uncompressed size.
    pub open spec fn leading_fields(&self) -> Seq<u8> {
        le32(CENTRAL_DIRECTORY_HEADER_SIGNATURE)
            + version_made_by_bytes(self.spoof_version_made_by)
            + le16(version_needed(central_header_features(self.compression_method, self.spec_requires_zip64())))
            + le16(general_purpose_flag(self.name_bytes()))
            + le16(wire_code(self.compression_method))
            + self.squash_time@
            + le32(self.crc32)
            + le32(self.compressed_size)
            + le32(self.uncompressed_size)
    }

    /// The fields from the file name length up to the local header offset:
    /// no file comment, zero internal attributes and the read-only attribute.
    pub open spec fn trailing_fields(&self) -> Seq<u8> {
        le16(self.name_bytes().len() as u16)
            + le16(self.spec_extra_field_length())
            + le16(0)
            + le16(self.local_header_disk_number)
            + le16(0)
            + le32(FILE_ATTRIBUTE_READONLY)
            + le32(self.offset_field())
    }

    /// The bytes of this record as `write` emits them.
    pub open spec fn encoding(&self) -> Seq<u8> {
        self.leading_fields() + self.trailing_fields() + self.name_bytes()
            + self.zip64_extra_field()
    }

    /// The number of bytes this record takes.
    pub open spec fn spec_size(&self) -> nat {
        (CENTRAL_DIRECTORY_HEADER_FIXED_SIZE + self.name_bytes().len()
            + self.spec_extra_field_length()) as nat
    }

    /// Creates a central directory header. The file name must fit the 16-bit
    /// length field, which the local header of the entry already checked.
    pub fn new(
        file_name: &'a str,
        local_header_offset: u64,
        compression_method: CompressionMethod,
        squash_time: [u8; 4],
        crc32: u32,
        compressed_size: u32,
        uncompressed_size: u32,
        local_header_disk_number: u16,
        spoof_version_made_by: bool,
    ) -> (r: Self)
        requires
            file_name.spec_bytes().len() <= u16::MAX,
        ensures
            r.wf(),
            r == (CentralDirectoryHeader {
                compression_method,
                squash_time,
                crc32,
                compressed_size,
                uncompressed_size,
                local_header_disk_number,
                local_header_offset,
                file_name,
                spoof_version_made_by,
            }),
    {
        CentralDirectoryHeader {
            compression_method,
            squash_time,
            crc32,
            compressed_size,
            uncompressed_size,
            local_header_disk_number,
            local_header_offset,
            file_name,
            spoof_version_made_by,
        }
    }

    /// Returns whether this record needs ZIP64 extensions to be stored.
    pub fn requires_zip64_extensions(&self) -> (r: bool)
        ensures
            r == self.spec_requires_zip64(),
    {
        self.local_header_offset_requires_zip64_extensions()
    }

    /// Checks whether the local header offset overflows the 32-bit field that
    /// the classic layout reserves for it.
    pub fn local_header_offset_requires_zip64_extensions(&self) -> (r: bool)
        ensures
            r == (self.local_header_offset > u32::MAX),
    {
        self.local_header_offset > u32::MAX as u64
    }

    /// Computes the total length of the extra fields of this record: a 4-byte
    /// field header and the 8-byte offset when ZIP64 is needed, else zero.
    pub fn compute_extra_field_length(&self) -> (r: u16)
        ensures
            r == self.spec_extra_field_length(),
    {
        let zip64 = self.requires_zip64_extensions();
        let offset = self.local_header_offset_requires_zip64_extensions();
        (if zip64 { 4u16 } else { 0u16 }) + (if offset { 8u16 } else { 0u16 })
    }

    /// Appends this record to `out`.
    pub fn write(&self, out: &mut Vec<u8>)
        requires
            self.wf(),
        ensures
            final(out)@ == old(out)@ + self.encoding(),
    {
        self.write_leading_fields(out);
        self.write_trailing_fields(out);
        push_bytes(out, self.file_name.as_bytes());
        self.write_zip64_extra_field(out);
        assert(out@ =~= old(out)@ + self.encoding());
    }

    /// Appends the fields from the signature up to the uncompressed size.
    fn write_leading_fields(&self, out: &mut Vec<u8>)
        ensures
            final(out)@ == old(out)@ + self.leading_fields(),
    {
        let zip64 = self.requires_zip64_extensions();
        let mut features = ZipFeatureSet::empty();
        if self.compression_method == CompressionMethod::Deflate {
            features.insert(ZipFeature::DeflateCompression);
        }
        if zip64 {
            features.insert(ZipFeature::Zip64Extensions);
        }
        assert(features@ =~= central_header_features(self.compression_method, zip64));
        let version = version_needed_to_extract(&features);
        let flag = get_general_purpose_bit_flag(self.file_name);
        let method = self.compression_method.to_compression_method_field();
        let made_by = get_version_made_by(self.spoof_version_made_by);

        push_u32(out, CENTRAL_DIRECTORY_HEADER_SIGNATURE);
        push_bytes(out, &made_by);
        push_u16(out, version);
        push_u16(out, flag);
        push_u16(out, method);
        push_bytes(out, &self.squash_time);
        push_u32(out, self.crc32);
        push_u32(out, self.compressed_size);
        push_u32(out, self.uncompressed_size);
        assert(out@ =~= old(out)@ + self.leading_fields());
    }

    /// Appends the fields from the file name length up to the local header
    /// offset.
    fn write_trailing_fields(&self, out: &mut Vec<u8>)
        requires
            self.wf(),
        ensures
            final(out)@ == old(out)@ + self.trailing_fields(),
    {
        let extra_field_length = self.compute_extra_field_length();
        let offset_field = if self.local_header_offset_requires_zip64_extensions() {
            U32_SENTINEL
        } else {
            self.local_header_offset as u32
        };
        push_u16(out, self.file_name.as_bytes().len() as u16);
        push_u16(out, extra_field_length);
        // No file comment
        push_u16(out, 0);
        push_u16(out, self.local_header_disk_number);
        // Internal attributes stay zero, so that no tool converts line endings
        push_u16(out, 0);
        push_u32(out, FILE_ATTRIBUTE_READONLY);
        push_u32(out, offset_field);
        assert(out@ =~= old(out)@ + self.trailing_fields());
    }

    /// Appends the ZIP64 extended information extra field when it is needed.
    fn write_zip64_extra_field(&self, out: &mut Vec<u8>)
        ensures
            final(out)@ == old(out)@ + self.zip64_extra_field(),
    {
        let extra_field_length = self.compute_extra_field_length();
        if self.requires_zip64_extensions() {
            push_u16(out, ZIP64_EXTRA_FIELD_TAG);
            // The data length leaves out the 4-byte field header
            push_u16(out, extra_field_length - 4);
            if self.local_header_offset_requires_zip64_extensions() {
                push_u64(out, self.local_header_offset);
            }
        }
        assert(out@ =~= old(out)@ + self.zip64_extra_field());
    }

    /// Returns the number of bytes this record takes, which `write` emits.
    pub fn get_size(&self) -> (r: u32)
        requires
            self.wf(),
        ensures
            r == self.spec_size(),
    {
        CENTRAL_DIRECTORY_HEADER_FIXED_SIZE + self.file_name.as_bytes().len() as u32
            + self.compute_extra_field_length() as u32
    }
}

/// The size a central directory header announces is the length of its
/// encoding.
pub proof fn lemma_central_header_size(header: CentralDirectoryHeader)
    requires
        header.wf(),
    ensures
        header.encoding().len() == header.spec_size(),
{
}

/// Bytes 8 and 9 of a central directory header hold its general purpose bit
/// flag, whose bit 11 is set exactly when the file name holds a byte of 128 or
/// more.
pub proof fn lemma_central_header_utf8_flag(header: CentralDirectoryHeader)
    requires
        header.wf(),
    ensures
        header.encoding().subrange(8, 10) == le16(general_purpose_flag(header.name_bytes())),
        (general_purpose_flag(header.name_bytes()) & 0x0800 != 0) <==> has_non_ascii_byte(
            header.name_bytes(),
        ),
        general_purpose_flag(header.name_bytes()) & !0x0800u16 == 0,
{
    lemma_general_purpose_flag_bits(header.name_bytes());
    assert(header.encoding().subrange(8, 10) =~= le16(
        general_purpose_flag(header.name_bytes()),
    ));
}

/// A central directory header whose local header offset fits 32 bits has no
/// ZIP64 extra field: its extra field length is zero, its offset field holds
/// the offset, and it ends with the file name.
pub proof fn lemma_central_header_offset_in_range(header: CentralDirectoryHeader)
    requires
        header.wf(),
        header.local_header_offset <= u32::MAX,
    ensures
        !header.spec_requires_zip64(),
        header.spec_extra_field_length() == 0,
        header.encoding().subrange(30, 32) == le16(0),
        header.encoding().subrange(42, 46) == le32(header.local_header_offset as u32),
        header.encoding().subrange(46, header.encoding().len() as int) == header.name_bytes(),
        header.spec_size() == CENTRAL_DIRECTORY_HEADER_FIXED_SIZE + header.name_bytes().len(),
        header.encoding().len() == header.spec_size(),
{
    let e = header.encoding();
    assert(e.subrange(30, 32) =~= le16(0));
    assert(e.subrange(42, 46) =~= le32(header.local_header_offset as u32));
    assert(e.subrange(46, e.len() as int) =~= header.name_bytes());
}

/// A central directory header whose local header offset overflows 32 bits
/// writes the sentinel in the offset field and appends, after the file name,
/// a ZIP64 extra field of 12 bytes that holds the real offset; its size grows
/// by those 12 bytes.
pub proof fn lemma_central_header_offset_promoted(header: CentralDirectoryHeader)
    requires
        header.wf(),
        header.local_header_offset > u32::MAX,
    ensures
        header.spec_requires_zip64(),
        header.spec_extra_field_length() == 12,
        header.encoding().subrange(30, 32) == le16(12),
        header.encoding().subrange(42, 46) == le32(U32_SENTINEL),
        header.encoding().subrange(46, 46 + header.name_bytes().len() as int) == header.name_bytes(),
        header.encoding().subrange(
            46 + header.name_bytes().len() as int,
            header.encoding().len() as int,
        ) == le16(ZIP64_EXTRA_FIELD_TAG) + le16(8) + le64(header.local_header_offset),
        header.spec_size() == CENTRAL_DIRECTORY_HEADER_FIXED_SIZE + header.name_bytes().len()
            + 12,
        header.encoding().len() == header.spec_size(),
{
    let e = header.encoding();
    let n = header.name_bytes().len() as int;
    assert(e.subrange(30, 32) =~= le16(12));
    assert(e.subrange(42, 46) =~= le32(U32_SENTINEL));
    assert(e.subrange(46, 46 + n) =~= header.name_bytes());
    assert(e.subrange(46 + n, e.len() as int) =~= le16(ZIP64_EXTRA_FIELD_TAG) + le16(8) + le64(
        header.local_header_offset,
    ));
}

/// Of two central directory headers for the same file name, the one whose
/// local header offset overflows 32 bits is exactly 12 bytes larger than the
/// one whose offset fits.
pub proof fn lemma_central_header_promotion_adds_twelve(
    fitting: CentralDirectoryHeader,
    promoted: CentralDirectoryHeader,
)
    requires
        fitting.wf(),
        promoted.wf(),
        fitting.name_bytes() == promoted.name_bytes(),
        fitting.local_header_offset <= u32::MAX,
        promoted.local_header_offset > u32::MAX,
    ensures
        promoted.spec_size() == fitting.spec_size() + 12,
        promoted.encoding().len() == fitting.encoding().len() + 12,
{
}

} // verus!
