//! The local file header, which precedes the data of each entry.
use vstd::prelude::*;
use vstd::string::StringSliceAdditionalSpecFns;

use crate::bytes::{le16, le32, push_bytes, push_u16, push_u32, push_zeros};
use crate::compression::{wire_code, CompressionMethod};
use crate::error::SquashZipError;
use crate::feature::{version_needed, version_needed_to_extract, ZipFeature, ZipFeatureSet};
use crate::file_name::{
    general_purpose_flag, get_general_purpose_bit_flag, has_non_ascii_byte,
    lemma_general_purpose_flag_bits,
};

verus! {

broadcast use crate::bytes::group_le_lengths;

/// A dummy value for the last modification time and date fields of the local
/// file header and central directory header records.
///
/// Read as an MS-DOS time and date, its lower two bytes are the time 00:00:00
/// and its upper two bytes the date 1980-01-01: day 1 (bits 0-4), month 1
/// (bits 5-8) and year 1980 + 0 (bits 9-15). Day and month are 1 because
/// strict readers may reject the undefined zero values.
pub const DUMMY_SQUASH_TIME: [u8; 4] = [0, 0, 0x21, 0];

/// The magic number that starts a local file header.
pub const LOCAL_FILE_HEADER_SIGNATURE: u32 = 0x04034B50;

/// The number of bytes of a local file header that do not depend on the file
/// name.
pub const LOCAL_FILE_HEADER_FIXED_SIZE: u32 = 30;

/// The features that extracting an entry with a local header that uses
/// `method` needs. A local header never needs ZIP64 extensions itself.
pub open spec fn local_header_features(method: CompressionMethod) -> Set<ZipFeature> {
    if method == CompressionMethod::Deflate {
        set![ZipFeature::DeflateCompression]
    } else {
        Set::empty()
    }
}

/// A local file header, defined in section 4.3.7 of the ZIP specification.
///
/// The content fields may be changed freely before the header is written.
/// `new` checks that the file name fits the 16-bit length field, which is what
/// `wf` asks of a header that is written.
pub struct LocalFileHeader<'a> {
    pub compression_method: CompressionMethod,
    pub squash_time: [u8; 4],
    pub crc32: u32,
    pub compressed_size: u32,
    pub uncompressed_size: u32,
    pub file_name: &'a str,
}

impl<'a> LocalFileHeader<'a> {
    /// The UTF-8 bytes of the file name.
    pub open spec fn name_bytes(&self) -> Seq<u8> {
        self.file_name.spec_bytes()
    }

    /// The file name length fits its 16-bit field.
    pub open spec fn wf(&self) -> bool {
        self.name_bytes().len() <= u16::MAX
    }

    /// The bytes of this record as `write` emits them.
    pub open spec fn encoding(&self) -> Seq<u8> {
        le32(LOCAL_FILE_HEADER_SIGNATURE)
            + le16(version_needed(local_header_features(self.compression_method)))
            + le16(general_purpose_flag(self.name_bytes()))
            + le16(wire_code(self.compression_method))
            + self.squash_time@
            + le32(self.crc32)
            + le32(self.compressed_size)
            + le32(self.uncompressed_size)
            + le16(self.name_bytes().len() as u16)
            + le16(0)
            + self.name_bytes()
    }

    /// The number of bytes this record takes.
    pub open spec fn spec_size(&self) -> nat {
        (LOCAL_FILE_HEADER_FIXED_SIZE + self.name_bytes().len()) as nat
    }

    /// Creates a local file header for `file_name`, with the `Store` method,
    /// the dummy time and zero CRC and sizes. Fails when the UTF-8 encoding of
    /// the name is longer than 65535 bytes.
    pub fn new(file_name: &'a str) -> (r: Result<Self, SquashZipError>)
        ensures
            file_name.spec_bytes().len() <= u16::MAX <==> r is Ok,
            r is Ok ==> ({
                let h = r->Ok_0;
                &&& h.wf()
                &&& h.file_name == file_name
                &&& h.compression_method == CompressionMethod::Store
                &&& h.squash_time == DUMMY_SQUASH_TIME
                &&& h.crc32 == 0
                &&& h.compressed_size == 0
                &&& h.uncompressed_size == 0
            }),
            r is Err ==> r == Err::<Self, SquashZipError>(
                SquashZipError::FileNameTooLong(file_name.spec_bytes().len() as usize),
            ),
    {
        let length = file_name.as_bytes().len();
        if length > 65535 {
            return Err(SquashZipError::FileNameTooLong(length));
        }
        Ok(LocalFileHeader {
            compression_method: CompressionMethod::Store,
            squash_time: DUMMY_SQUASH_TIME,
            crc32: 0,
            compressed_size: 0,
            uncompressed_size: 0,
            file_name,
        })
    }

    /// Appends this record to `out`.
    pub fn write(&self, out: &mut Vec<u8>)
        requires
            self.wf(),
        ensures
            final(out)@ == old(out)@ + self.encoding(),
    {
        let mut features = ZipFeatureSet::empty();
        if self.compression_method == CompressionMethod::Deflate {
            features.insert(ZipFeature::DeflateCompression);
        }
        assert(features@ =~= local_header_features(self.compression_method));
        let version = version_needed_to_extract(&features);
        let flag = get_general_purpose_bit_flag(self.file_name);
        let method = self.compression_method.to_compression_method_field();
        let name = self.file_name.as_bytes();

        push_u32(out, LOCAL_FILE_HEADER_SIGNATURE);
        push_u16(out, version);
        push_u16(out, flag);
        push_u16(out, method);
        // The four bytes of the squash time fill the time and date fields as
        // one little-endian field
        push_bytes(out, &self.squash_time);
        push_u32(out, self.crc32);
        push_u32(out, self.compressed_size);
        push_u32(out, self.uncompressed_size);
        push_u16(out, name.len() as u16);
        // No extra fields in local headers
        push_u16(out, 0);
        push_bytes(out, name);
        assert(out@ =~= old(out)@ + self.encoding());
    }

    /// Appends as many zero bytes to `out` as this record takes, so that the
    /// record can later be written over them.
    pub fn reserve_space(&self, out: &mut Vec<u8>)
        requires
            self.wf(),
        ensures
            final(out)@ == old(out)@ + Seq::new(self.spec_size(), |i: int| 0u8),
    {
        push_zeros(out, LOCAL_FILE_HEADER_FIXED_SIZE as usize);
        push_zeros(out, self.file_name.as_bytes().len());
        assert(out@ =~= old(out)@ + Seq::new(self.spec_size(), |i: int| 0u8));
    }

    /// Returns the number of bytes this record takes, which `write` and
    /// `reserve_space` both emit.
    pub fn get_size(&self) -> (r: u32)
        requires
            self.wf(),
        ensures
            r == self.spec_size(),
    {
        LOCAL_FILE_HEADER_FIXED_SIZE + self.file_name.as_bytes().len() as u32
    }
}

/// The size a local header announces is the length of its encoding.
pub proof fn lemma_local_header_size(header: LocalFileHeader)
    requires
        header.wf(),
    ensures
        header.encoding().len() == header.spec_size(),
{
}

/// Bytes 6 and 7 of a local header hold its general purpose bit flag, whose
/// bit 11 is set exactly when the file name holds a byte of 128 or more.
pub proof fn lemma_local_header_utf8_flag(header: LocalFileHeader)
    requires
        header.wf(),
    ensures
        header.encoding().subrange(6, 8) == le16(general_purpose_flag(header.name_bytes())),
        (general_purpose_flag(header.name_bytes()) & 0x0800 != 0) <==> has_non_ascii_byte(
            header.name_bytes(),
        ),
        general_purpose_flag(header.name_bytes()) & !0x0800u16 == 0,
{
    lemma_general_purpose_flag_bits(header.name_bytes());
    assert(header.encoding().subrange(6, 8) =~= le16(general_purpose_flag(header.name_bytes())));
}

} // verus!
