//! The end of central directory record, preceded by a ZIP64 end of central
//! directory record and its locator when a counter overflows its classic
//! field.
use vstd::prelude::*;

use crate::bytes::{le16, le32, le64, push_bytes, push_u16, push_u32, push_u64};
use crate::central_header::U32_SENTINEL;
use crate::feature::{get_version_made_by, version_made_by_bytes, ZipFeature};

verus! {

broadcast use crate::bytes::group_le_lengths;

/// The magic number that starts a ZIP64 end of central directory record.
pub const ZIP64_END_OF_CENTRAL_DIRECTORY_SIGNATURE: u32 = 0x06064B50;

/// The magic number that starts a ZIP64 end of central directory locator.
pub const ZIP64_END_OF_CENTRAL_DIRECTORY_LOCATOR_SIGNATURE: u32 = 0x07064B50;

/// The magic number that starts the classic end of central directory record.
pub const END_OF_CENTRAL_DIRECTORY_SIGNATURE: u32 = 0x06054B50;

/// The size of the ZIP64 end of central directory record.
pub const ZIP64_END_OF_CENTRAL_DIRECTORY_SIZE: u32 = 56;

/// The size of the ZIP64 end of central directory locator.
pub const ZIP64_END_OF_CENTRAL_DIRECTORY_LOCATOR_SIZE: u32 = 20;

/// The size of the classic end of central directory record.
pub const END_OF_CENTRAL_DIRECTORY_SIZE: u32 = 22;

/// The value of the ZIP64 record size field before any correction: the
/// record's size without its leading signature and size field.
pub const ZIP64_RECORD_SIZE_FIELD: i64 = 44;

/// The largest value a 16-bit field holds, written in place of a count that
/// only fits a ZIP64 field.
pub const U16_SENTINEL: u16 = 0xFFFF;

/// The trailer of a ZIP file, sections 4.3.14 to 4.3.16 of the ZIP
/// specification. Depending on the counters it stands for the classic end of
/// central directory record alone, or for a ZIP64 end of central directory
/// record and locator followed by the classic record.
pub struct EndOfCentralDirectory {
    pub disk_number: u16,
    pub central_directory_start_disk_number: u16,
    pub central_directory_entry_count_current_disk: u64,
    pub total_central_directory_entry_count: u64,
    pub central_directory_size: u64,
    pub central_directory_start_offset: u64,
    pub total_number_of_disks: u32,
    pub current_file_offset: u64,
    pub zip64_record_size_offset: i8,
    pub spoof_version_made_by: bool,
    pub zero_out_unused_zip64_fields: bool,
}

impl EndOfCentralDirectory {
    /// The entry count of the current disk overflows 16 bits.
    pub open spec fn spec_entry_count_current_disk_overflows(&self) -> bool {
        self.central_directory_entry_count_current_disk > u16::MAX
    }

    /// The total entry count overflows 16 bits.
    pub open spec fn spec_total_entry_count_overflows(&self) -> bool {
        self.total_central_directory_entry_count > u16::MAX
    }

    /// The central directory size overflows 32 bits.
    pub open spec fn spec_central_directory_size_overflows(&self) -> bool {
        self.central_directory_size > u32::MAX
    }

    /// The central directory start offset overflows 32 bits.
    pub open spec fn spec_central_directory_start_offset_overflows(&self) -> bool {
        self.central_directory_start_offset > u32::MAX
    }

    /// Some counter overflows its classic field, so ZIP64 records are needed.
    pub open spec fn spec_requires_zip64(&self) -> bool {
        self.spec_entry_count_current_disk_overflows() || self.spec_total_entry_count_overflows()
            || self.spec_central_directory_size_overflows()
            || self.spec_central_directory_start_offset_overflows()
    }

    /// The ZIP64 record size field: 44 plus the correction, never below zero.
    pub open spec fn zip64_record_size(&self) -> u64 {
        let size = ZIP64_RECORD_SIZE_FIELD + self.zip64_record_size_offset as i64;
        if size < 0 {
            0
        } else {
            size as u64
        }
    }

    /// A disk number as a ZIP64 field holds it: zero under the zero-out policy.
    pub open spec fn zip64_disk_field(&self, disk: u16) -> u32 {
        if self.zero_out_unused_zip64_fields {
            0
        } else {
            disk as u32
        }
    }

    /// A counter as a ZIP64 field holds it: zero under the zero-out policy,
    /// unless the counter overflowed its classic field.
    pub open spec fn zip64_counter_field(&self, value: u64, overflows: bool) -> u64 {
        if self.zero_out_unused_zip64_fields && !overflows {
            0
        } else {
            value
        }
    }

    /// The leading fields of the ZIP64 end of central directory record, up to
    /// the disk numbers.
    pub open spec fn zip64_record_header(&self) -> Seq<u8> {
        le32(ZIP64_END_OF_CENTRAL_DIRECTORY_SIGNATURE)
            + le64(self.zip64_record_size())
            + version_made_by_bytes(self.spoof_version_made_by)
            + le16(ZipFeature::Zip64Extensions.spec_version())
            + le32(self.zip64_disk_field(self.disk_number))
            + le32(self.zip64_disk_field(self.central_directory_start_disk_number))
    }

    /// The four 64-bit counters of the ZIP64 end of central directory record.
    pub open spec fn zip64_record_counters(&self) -> Seq<u8> {
        le64(self.zip64_counter_field(self.central_directory_entry_count_current_disk, self.spec_entry_count_current_disk_overflows()))
            + le64(self.zip64_counter_field(self.total_central_directory_entry_count, self.spec_total_entry_count_overflows()))
            + le64(self.zip64_counter_field(self.central_directory_size, self.spec_central_directory_size_overflows()))
            + le64(self.zip64_counter_field(self.central_directory_start_offset, self.spec_central_directory_start_offset_overflows()))
    }

    /// The bytes of the ZIP64 end of central directory record.
    pub open spec fn zip64_record(&self) -> Seq<u8> {
        self.zip64_record_header() + self.zip64_record_counters()
    }

    /// The bytes of the ZIP64 end of central directory locator.
    pub open spec fn zip64_locator(&self) -> Seq<u8> {
        le32(ZIP64_END_OF_CENTRAL_DIRECTORY_LOCATOR_SIGNATURE)
            + le32(self.zip64_disk_field(self.central_directory_start_disk_number))
            + le64(self.current_file_offset)
            + le32(self.total_number_of_disks)
    }

    /// A 16-bit count field: the count, or the sentinel when it overflows.
    pub open spec fn classic_count_field(value: u64) -> u16 {
        if value > u16::MAX {
            U16_SENTINEL
        } else {
            value as u16
        }
    }

    /// A 32-bit size or offset field: the value, or the sentinel when it
    /// overflows.
    pub open spec fn classic_wide_field(value: u64) -> u32 {
        if value > u32::MAX {
            U32_SENTINEL
        } else {
            value as u32
        }
    }

    /// The bytes of the classic end of central directory record, with no
    /// archive comment.
    pub open spec fn classic_record(&self) -> Seq<u8> {
        le32(END_OF_CENTRAL_DIRECTORY_SIGNATURE)
            + le16(self.disk_number)
            + le16(self.central_directory_start_disk_number)
            + le16(Self::classic_count_field(self.central_directory_entry_count_current_disk))
            + le16(Self::classic_count_field(self.total_central_directory_entry_count))
            + le32(Self::classic_wide_field(self.central_directory_size))
            + le32(Self::classic_wide_field(self.central_directory_start_offset))
            + le16(0)
    }

    /// The bytes of this record as `write` emits them.
    pub open spec fn encoding(&self) -> Seq<u8> {
        if self.spec_requires_zip64() {
            self.zip64_record() + self.zip64_locator() + self.classic_record()
        } else {
            self.classic_record()
        }
    }

    /// The number of bytes this record takes.
    pub open spec fn spec_size(&self) -> nat {
        if self.spec_requires_zip64() {
            (ZIP64_END_OF_CENTRAL_DIRECTORY_SIZE + ZIP64_END_OF_CENTRAL_DIRECTORY_LOCATOR_SIZE
                + END_OF_CENTRAL_DIRECTORY_SIZE) as nat
        } else {
            END_OF_CENTRAL_DIRECTORY_SIZE as nat
        }
    }

    /// Creates an end of central directory record.
    pub fn new(
        disk_number: u16,
        central_directory_start_disk_number: u16,
        central_directory_entry_count_current_disk: u64,
        total_central_directory_entry_count: u64,
        central_directory_size: u64,
        central_directory_start_offset: u64,
        total_number_of_disks: u32,
        current_file_offset: u64,
        zip64_size_offset: i8,
        spoof_version_made_by: bool,
        zero_out_unused_zip64_fields: bool,
    ) -> (r: Self)
        ensures
            r == (EndOfCentralDirectory {
                disk_number,
                central_directory_start_disk_number,
                central_directory_entry_count_current_disk,
                total_central_directory_entry_count,
                central_directory_size,
                central_directory_start_offset,
                total_number_of_disks,
                current_file_offset,
                zip64_record_size_offset: zip64_size_offset,
                spoof_version_made_by,
                zero_out_unused_zip64_fields,
            }),
    {
        EndOfCentralDirectory {
            disk_number,
            central_directory_start_disk_number,
            central_directory_entry_count_current_disk,
            total_central_directory_entry_count,
            central_directory_size,
            central_directory_start_offset,
            total_number_of_disks,
            current_file_offset,
            zip64_record_size_offset: zip64_size_offset,
            spoof_version_made_by,
            zero_out_unused_zip64_fields,
        }
    }

    /// Returns whether this record needs ZIP64 extensions to be stored.
    pub fn requires_zip64_extensions(&self) -> (r: bool)
        ensures
            r == self.spec_requires_zip64(),
    {
        self.entry_count_current_disk_requires_zip64_extensions()
            || self.total_entry_count_requires_zip64_extensions()
            || self.central_directory_size_requires_zip64_extensions()
            || self.central_directory_start_offset_requires_zip64_extensions()
    }

    /// Checks whether the entry count of the current disk overflows its 16-bit
    /// field.
    pub fn entry_count_current_disk_requires_zip64_extensions(&self) -> (r: bool)
        ensures
            r == self.spec_entry_count_current_disk_overflows(),
    {
        self.central_directory_entry_count_current_disk > u16::MAX as u64
    }

    /// Checks whether the total entry count overflows its 16-bit field.
    pub fn total_entry_count_requires_zip64_extensions(&self) -> (r: bool)
        ensures
            r == self.spec_total_entry_count_overflows(),
    {
        self.total_central_directory_entry_count > u16::MAX as u64
    }

    /// Checks whether the central directory size overflows its 32-bit field.
    pub fn central_directory_size_requires_zip64_extensions(&self) -> (r: bool)
        ensures
            r == self.spec_central_directory_size_overflows(),
    {
        self.central_directory_size > u32::MAX as u64
    }

    /// Checks whether the central directory start offset overflows its 32-bit
    /// field.
    pub fn central_directory_start_offset_requires_zip64_extensions(&self) -> (r: bool)
        ensures
            r == self.spec_central_directory_start_offset_overflows(),
    {
        self.central_directory_start_offset > u32::MAX as u64
    }

    /// Appends this record to `out`: the ZIP64 record and locator when they
    /// are needed, then the classic record.
    pub fn write(&self, out: &mut Vec<u8>)
        ensures
            final(out)@ == old(out)@ + self.encoding(),
    {
        if self.requires_zip64_extensions() {
            self.write_zip64_record(out);
            self.write_zip64_locator(out);
        }
        self.write_classic_record(out);
        assert(out@ =~= old(out)@ + self.encoding());
    }

    /// Appends the ZIP64 end of central directory record.
    fn write_zip64_record(&self, out: &mut Vec<u8>)
        ensures
            final(out)@ == old(out)@ + self.zip64_record(),
    {
        self.write_zip64_record_header(out);
        self.write_zip64_record_counters(out);
        assert(out@ =~= old(out)@ + self.zip64_record());
    }

    /// Appends the leading fields of the ZIP64 end of central directory record.
    fn write_zip64_record_header(&self, out: &mut Vec<u8>)
        ensures
            final(out)@ == old(out)@ + self.zip64_record_header(),
    {
        let zero = self.zero_out_unused_zip64_fields;
        let size = ZIP64_RECORD_SIZE_FIELD + self.zip64_record_size_offset as i64;
        let size_field: u64 = if size < 0 {
            0
        } else {
            size as u64
        };
        let made_by = get_version_made_by(self.spoof_version_made_by);
        // ZIP64 is the highest version supported, so it is always the version
        // needed here; it also matches the version made by when not spoofing
        let version = ZipFeature::Zip64Extensions.to_version_needed_to_extract();
        // Under the zero-out policy the disk numbers, redundant at this level,
        // are left out
        let disk: u32 = if zero { 0 } else { self.disk_number as u32 };
        let start_disk: u32 = if zero { 0 } else { self.central_directory_start_disk_number as u32 };

        push_u32(out, ZIP64_END_OF_CENTRAL_DIRECTORY_SIGNATURE);
        push_u64(out, size_field);
        push_bytes(out, &made_by);
        push_u16(out, version);
        push_u32(out, disk);
        push_u32(out, start_disk);
        assert(out@ =~= old(out)@ + self.zip64_record_header());
    }

    /// Appends the four counters of the ZIP64 end of central directory record.
    /// Under the zero-out policy a counter is left out unless it is one that
    /// overflowed its classic field.
    fn write_zip64_record_counters(&self, out: &mut Vec<u8>)
        ensures
            final(out)@ == old(out)@ + self.zip64_record_counters(),
    {
        let zero = self.zero_out_unused_zip64_fields;
        let entries_disk = if zero && !self.entry_count_current_disk_requires_zip64_extensions() {
            0
        } else {
            self.central_directory_entry_count_current_disk
        };
        let entries_total = if zero && !self.total_entry_count_requires_zip64_extensions() {
            0
        } else {
            self.total_central_directory_entry_count
        };
        let cd_size = if zero && !self.central_directory_size_requires_zip64_extensions() {
            0
        } else {
            self.central_directory_size
        };
        let cd_offset = if zero && !self.central_directory_start_offset_requires_zip64_extensions() {
            0
        } else {
            self.central_directory_start_offset
        };
        push_u64(out, entries_disk);
        push_u64(out, entries_total);
        push_u64(out, cd_size);
        push_u64(out, cd_offset);
        assert(out@ =~= old(out)@ + self.zip64_record_counters());
    }

    /// Appends the ZIP64 end of central directory locator.
    fn write_zip64_locator(&self, out: &mut Vec<u8>)
        ensures
            final(out)@ == old(out)@ + self.zip64_locator(),
    {
        let start_disk: u32 = if self.zero_out_unused_zip64_fields {
            0
        } else {
            self.central_directory_start_disk_number as u32
        };
        push_u32(out, ZIP64_END_OF_CENTRAL_DIRECTORY_LOCATOR_SIGNATURE);
        push_u32(out, start_disk);
        push_u64(out, self.current_file_offset);
        push_u32(out, self.total_number_of_disks);
        assert(out@ =~= old(out)@ + self.zip64_locator());
    }

    /// Appends the classic end of central directory record.
    fn write_classic_record(&self, out: &mut Vec<u8>)
        ensures
            final(out)@ == old(out)@ + self.classic_record(),
    {
        let entries_disk = if self.entry_count_current_disk_requires_zip64_extensions() {
            U16_SENTINEL
        } else {
            self.central_directory_entry_count_current_disk as u16
        };
        let entries_total = if self.total_entry_count_requires_zip64_extensions() {
            U16_SENTINEL
        } else {
            self.total_central_directory_entry_count as u16
        };
        let cd_size = if self.central_directory_size_requires_zip64_extensions() {
            U32_SENTINEL
        } else {
            self.central_directory_size as u32
        };
        let cd_offset = if self.central_directory_start_offset_requires_zip64_extensions() {
            U32_SENTINEL
        } else {
            self.central_directory_start_offset as u32
        };
        push_u32(out, END_OF_CENTRAL_DIRECTORY_SIGNATURE);
        push_u16(out, self.disk_number);
        push_u16(out, self.central_directory_start_disk_number);
        push_u16(out, entries_disk);
        push_u16(out, entries_total);
        push_u32(out, cd_size);
        push_u32(out, cd_offset);
        // No archive comment
        push_u16(out, 0);
        assert(out@ =~= old(out)@ + self.classic_record());
    }

    /// Returns the number of bytes this record takes, which `write` emits.
    pub fn get_size(&self) -> (r: u32)
        ensures
            r == self.spec_size(),
    {
        (ZIP64_END_OF_CENTRAL_DIRECTORY_SIZE + ZIP64_END_OF_CENTRAL_DIRECTORY_LOCATOR_SIZE)
            * (if self.requires_zip64_extensions() { 1u32 } else { 0u32 })
            + END_OF_CENTRAL_DIRECTORY_SIZE
    }
}

/// The size an end of central directory record announces is the length of
/// its encoding.
pub proof fn lemma_end_of_central_directory_size(record: EndOfCentralDirectory)
    ensures
        record.encoding().len() == record.spec_size(),
{
}

/// With every counter within its classic field, only the classic 22-byte
/// record is written, and it holds the counters themselves.
pub proof fn lemma_end_of_central_directory_classic_only(record: EndOfCentralDirectory)
    requires
        record.central_directory_entry_count_current_disk <= u16::MAX,
        record.total_central_directory_entry_count <= u16::MAX,
        record.central_directory_size <= u32::MAX,
        record.central_directory_start_offset <= u32::MAX,
    ensures
        !record.spec_requires_zip64(),
        record.encoding() == record.classic_record(),
        record.spec_size() == END_OF_CENTRAL_DIRECTORY_SIZE,
        record.encoding().len() == END_OF_CENTRAL_DIRECTORY_SIZE,
        record.encoding().subrange(0, 4) == le32(END_OF_CENTRAL_DIRECTORY_SIGNATURE),
        record.encoding().subrange(8, 10) == le16(
            record.central_directory_entry_count_current_disk as u16,
        ),
        record.encoding().subrange(10, 12) == le16(
            record.total_central_directory_entry_count as u16,
        ),
        record.encoding().subrange(12, 16) == le32(record.central_directory_size as u32),
        record.encoding().subrange(16, 20) == le32(record.central_directory_start_offset as u32),
{
    let e = record.encoding();
    assert(e.subrange(0, 4) =~= le32(END_OF_CENTRAL_DIRECTORY_SIGNATURE));
    assert(e.subrange(8, 10) =~= le16(record.central_directory_entry_count_current_disk as u16));
    assert(e.subrange(10, 12) =~= le16(record.total_central_directory_entry_count as u16));
    assert(e.subrange(12, 16) =~= le32(record.central_directory_size as u32));
    assert(e.subrange(16, 20) =~= le32(record.central_directory_start_offset as u32));
}

/// A total entry count that overflows 16 bits brings in the ZIP64 record and
/// locator: the classic record, after them, holds the sentinel as its total
/// entry count, and the ZIP64 record holds the count itself, whatever the
/// zero-out policy.
pub proof fn lemma_end_of_central_directory_total_count_promoted(record: EndOfCentralDirectory)
    requires
        record.total_central_directory_entry_count > u16::MAX,
    ensures
        record.spec_requires_zip64(),
        record.encoding().len() == record.spec_size(),
        record.spec_size() == ZIP64_END_OF_CENTRAL_DIRECTORY_SIZE
            + ZIP64_END_OF_CENTRAL_DIRECTORY_LOCATOR_SIZE + END_OF_CENTRAL_DIRECTORY_SIZE,
        record.encoding().subrange(0, 4) == le32(ZIP64_END_OF_CENTRAL_DIRECTORY_SIGNATURE),
        record.encoding().subrange(32, 40) == le64(record.total_central_directory_entry_count),
        record.encoding().subrange(56, 60) == le32(
            ZIP64_END_OF_CENTRAL_DIRECTORY_LOCATOR_SIGNATURE,
        ),
        record.encoding().subrange(76, 80) == le32(END_OF_CENTRAL_DIRECTORY_SIGNATURE),
        record.encoding().subrange(86, 88) == le16(U16_SENTINEL),
{
    let e = record.encoding();
    assert(e.subrange(0, 4) =~= le32(ZIP64_END_OF_CENTRAL_DIRECTORY_SIGNATURE));
    assert(e.subrange(32, 40) =~= le64(record.total_central_directory_entry_count));
    assert(e.subrange(56, 60) =~= le32(ZIP64_END_OF_CENTRAL_DIRECTORY_LOCATOR_SIGNATURE));
    assert(e.subrange(76, 80) =~= le32(END_OF_CENTRAL_DIRECTORY_SIGNATURE));
    assert(e.subrange(86, 88) =~= le16(U16_SENTINEL));
}

} // verus!
