//! Byte-exact encoders for the structural records of a ZIP archive: the local
//! file header, the central directory file header and the end of central
//! directory record (with its ZIP64 record and locator).
//!
//! Every record is a plain value whose `write` appends its wire form to a byte
//! buffer. The wire form of each record is stated as a spec function, and the
//! size a record announces through `get_size` is proved equal to the length of
//! what `write` appends.

pub mod bytes;
pub mod central_header;
pub mod compression;
pub mod end_of_central_directory;
pub mod error;
pub mod feature;
pub mod file_name;
pub mod local_header;

pub use bytes::{push_bytes, push_u16, push_u32, push_u64, push_zeros};
pub use central_header::{
    CentralDirectoryHeader, CENTRAL_DIRECTORY_HEADER_FIXED_SIZE,
    CENTRAL_DIRECTORY_HEADER_SIGNATURE, FILE_ATTRIBUTE_READONLY, U32_SENTINEL,
    ZIP64_EXTRA_FIELD_TAG,
};
pub use compression::CompressionMethod;
pub use end_of_central_directory::{
    EndOfCentralDirectory, END_OF_CENTRAL_DIRECTORY_SIGNATURE, END_OF_CENTRAL_DIRECTORY_SIZE,
    U16_SENTINEL, ZIP64_END_OF_CENTRAL_DIRECTORY_LOCATOR_SIGNATURE,
    ZIP64_END_OF_CENTRAL_DIRECTORY_LOCATOR_SIZE, ZIP64_END_OF_CENTRAL_DIRECTORY_SIGNATURE,
    ZIP64_END_OF_CENTRAL_DIRECTORY_SIZE, ZIP64_RECORD_SIZE_FIELD,
};
pub use error::SquashZipError;
pub use feature::{get_version_made_by, version_needed_to_extract, ZipFeature, ZipFeatureSet};
pub use file_name::{get_general_purpose_bit_flag, LANGUAGE_ENCODING_FLAG};
pub use local_header::{
    LocalFileHeader, DUMMY_SQUASH_TIME, LOCAL_FILE_HEADER_FIXED_SIZE, LOCAL_FILE_HEADER_SIGNATURE,
};
